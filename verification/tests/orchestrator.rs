use handy::custom_words::Threshold;
use handy::error::{Error, ErrorKind, Provider};
use handy::events::Notification;
use handy::model::{ArtifactProbe, ModelManager};
use handy::settings::{get_default_settings, Platform};
use handy::transcription::{
    finish_transcription, provider_for, DecodeParams, LoadNext, LoadStep, ModelStateEvent,
    TranscribeAction, TranscriptionManager,
};

fn event(kind: &str, id: &str, name: Option<&str>, error: Option<&str>) -> ModelStateEvent {
    ModelStateEvent {
        event_type: kind.to_string(),
        model_id: Some(id.to_string()),
        model_name: name.map(|n| n.to_string()),
        error: error.map(|e| e.to_string()),
    }
}

fn catalog_with_small() -> ModelManager {
    let mut catalog = ModelManager::new();
    catalog.update_download_status(&vec![ArtifactProbe {
        artifact_exists: true,
        artifact_is_dir: false,
        partial_exists: false,
        partial_size: 0,
    }]);
    catalog
}

#[test]
fn providers_by_model() {
    assert_eq!(provider_for("voxtral-mini"), Some(Provider::Mistral));
    assert_eq!(provider_for("nova-3"), Some(Provider::Deepgram));
    assert_eq!(provider_for("universal"), Some(Provider::AssemblyAi));
    assert_eq!(provider_for("whisper-zero"), Some(Provider::Gladia));
    assert_eq!(provider_for("small"), None);
}

#[test]
fn remote_model_is_ready_without_engine() {
    let catalog = ModelManager::new();
    for (id, name) in [
        ("voxtral-mini", "Voxtral Mini Transcribe (API)"),
        ("nova-3", "Nova-3 (Deepgram API)"),
        ("universal", "Universal (AssemblyAI API)"),
        ("whisper-zero", "Whisper-Zero (Gladia API)"),
    ] {
        let mut manager = TranscriptionManager::new();
        let step = manager.load_model(&catalog, id);
        assert_eq!(
            step,
            LoadStep {
                events: vec![event("loading_completed", id, Some(name), None)],
                next: LoadNext::Done(Ok(())),
            }
        );
        assert_eq!(manager.get_current_model(), Some(id.to_string()));
    }
}

#[test]
fn local_model_must_be_downloaded() {
    let catalog = ModelManager::new();
    let mut manager = TranscriptionManager::new();
    let step = manager.load_model(&catalog, "small");
    assert_eq!(
        step,
        LoadStep {
            events: vec![
                event("loading_started", "small", None, None),
                event("loading_failed", "small", Some("Whisper Small"), Some("Model not downloaded")),
            ],
            next: LoadNext::Done(Err(Error::NotDownloaded("small".to_string()))),
        }
    );
    assert_eq!(manager.get_current_model(), None);
}

#[test]
fn local_model_must_not_be_downloading() {
    let mut catalog = ModelManager::new();
    catalog.update_download_status(&vec![ArtifactProbe {
        artifact_exists: true,
        artifact_is_dir: false,
        partial_exists: true,
        partial_size: 1,
    }]);
    let mut manager = TranscriptionManager::new();
    let step = manager.load_model(&catalog, "small");
    assert_eq!(step.next, LoadNext::Done(Err(Error::Downloading("small".to_string()))));
    assert_eq!(step.events.len(), 2);
    assert_eq!(step.events[1].error.as_deref(), Some("Model is currently downloading"));
}

#[test]
fn unknown_model_is_not_found() {
    let catalog = ModelManager::new();
    let mut manager = TranscriptionManager::new();
    let step = manager.load_model(&catalog, "tiny");
    assert_eq!(step.events, vec![event("loading_started", "tiny", None, None)]);
    assert_eq!(step.next, LoadNext::Done(Err(Error::ModelNotFound("tiny".to_string()))));
}

#[test]
fn local_model_is_ready_once_the_engine_stands() {
    let catalog = catalog_with_small();
    let mut manager = TranscriptionManager::new();
    let step = manager.load_model(&catalog, "small");
    assert_eq!(
        step,
        LoadStep {
            events: vec![event("loading_started", "small", None, None)],
            next: LoadNext::InitializeEngine { path: "ggml-small.bin".to_string() },
        }
    );
    assert_eq!(manager.get_current_model(), None);
    let step = manager.finish_load(Ok(()));
    assert_eq!(
        step,
        LoadStep {
            events: vec![event("loading_completed", "small", Some("Whisper Small"), None)],
            next: LoadNext::Done(Ok(())),
        }
    );
    assert_eq!(manager.get_current_model(), Some("small".to_string()));
}

#[test]
fn failed_load_keeps_the_model_that_was_in_use() {
    let catalog = catalog_with_small();
    let mut manager = TranscriptionManager::new();
    manager.load_model(&catalog, "nova-3");
    manager.load_model(&catalog, "small");
    // still served by the old model while the engine is set up
    assert_eq!(manager.get_current_model(), Some("nova-3".to_string()));
    let step = manager.finish_load(Err("bad magic".to_string()));
    assert_eq!(
        step,
        LoadStep {
            events: vec![event("loading_failed", "small", Some("Whisper Small"), Some("bad magic"))],
            next: LoadNext::Done(Err(Error::Engine("bad magic".to_string()))),
        }
    );
    assert_eq!(manager.get_current_model(), Some("nova-3".to_string()));
    let settings = get_default_settings(Platform::Linux);
    assert_eq!(manager.transcribe(10, &settings), TranscribeAction::Delegate(Provider::Deepgram));
}

#[test]
fn failed_load_with_nothing_in_use_leaves_nothing_in_use() {
    let catalog = catalog_with_small();
    let mut manager = TranscriptionManager::new();
    manager.load_model(&catalog, "small");
    let step = manager.finish_load(Err("oom".to_string()));
    if let LoadNext::Done(Err(e)) = &step.next {
        assert_eq!(e.kind(), ErrorKind::State);
    } else {
        panic!("the load should have failed");
    }
    assert_eq!(manager.get_current_model(), None);
    let settings = get_default_settings(Platform::Linux);
    assert_eq!(
        manager.transcribe(10, &settings),
        TranscribeAction::Finish(Err(Error::NoModelLoaded))
    );
}

#[test]
fn failed_precondition_keeps_the_model_that_was_in_use() {
    let catalog = ModelManager::new();
    let mut manager = TranscriptionManager::new();
    manager.load_model(&catalog, "universal");
    manager.load_model(&catalog, "medium");
    assert_eq!(manager.get_current_model(), Some("universal".to_string()));
}

#[test]
fn load_and_finish_out_of_turn() {
    let catalog = catalog_with_small();
    let mut manager = TranscriptionManager::new();
    assert_eq!(
        manager.finish_load(Ok(())),
        LoadStep { events: vec![], next: LoadNext::Done(Err(Error::UnexpectedEvent)) }
    );
    manager.load_model(&catalog, "small");
    assert_eq!(
        manager.load_model(&catalog, "medium"),
        LoadStep { events: vec![], next: LoadNext::Done(Err(Error::UnexpectedEvent)) }
    );
    // the pending load is still the one that finishes, under its own name
    assert_eq!(
        manager.finish_load(Ok(())),
        LoadStep {
            events: vec![event("loading_completed", "small", Some("Whisper Small"), None)],
            next: LoadNext::Done(Ok(())),
        }
    );
}

#[test]
fn remote_model_comes_into_use_while_an_engine_is_set_up() {
    let catalog = catalog_with_small();
    let settings = get_default_settings(Platform::Linux);
    let mut manager = TranscriptionManager::new();
    manager.load_model(&catalog, "small");
    assert_eq!(
        manager.load_model(&catalog, "nova-3"),
        LoadStep {
            events: vec![event("loading_completed", "nova-3", Some("Nova-3 (Deepgram API)"), None)],
            next: LoadNext::Done(Ok(())),
        }
    );
    assert_eq!(manager.get_current_model(), Some("nova-3".to_string()));
    // the engine that was being set up is no longer waited for
    assert_eq!(
        manager.finish_load(Ok(())),
        LoadStep { events: vec![], next: LoadNext::Done(Err(Error::UnexpectedEvent)) }
    );
    assert_eq!(manager.get_current_model(), Some("nova-3".to_string()));
    assert_eq!(manager.transcribe(1, &settings), TranscribeAction::Delegate(Provider::Deepgram));
}

#[test]
fn empty_selection_changes_nothing_while_an_engine_is_set_up() {
    let catalog = catalog_with_small();
    let mut manager = TranscriptionManager::new();
    manager.load_model(&catalog, "small");
    assert_eq!(
        manager.load_model(&catalog, ""),
        LoadStep { events: vec![], next: LoadNext::Done(Err(Error::NoModelSelected)) }
    );
    assert_eq!(
        manager.finish_load(Err("no".to_string())),
        LoadStep {
            events: vec![event("loading_failed", "small", Some("Whisper Small"), Some("no"))],
            next: LoadNext::Done(Err(Error::Engine("no".to_string()))),
        }
    );
}

#[test]
fn empty_audio_gives_empty_text_whatever_the_state() {
    let catalog = catalog_with_small();
    let settings = get_default_settings(Platform::MacOs);
    let mut manager = TranscriptionManager::new();
    assert_eq!(manager.transcribe(0, &settings), TranscribeAction::Finish(Ok(String::new())));
    manager.load_model(&catalog, "voxtral-mini");
    assert_eq!(manager.transcribe(0, &settings), TranscribeAction::Finish(Ok(String::new())));
    manager.load_model(&catalog, "small");
    manager.finish_load(Ok(()));
    assert_eq!(manager.transcribe(0, &settings), TranscribeAction::Finish(Ok(String::new())));
}

#[test]
fn local_model_runs_the_engine_with_fixed_settings() {
    let catalog = catalog_with_small();
    let mut settings = get_default_settings(Platform::Windows);
    settings.selected_language = "de".to_string();
    settings.translate_to_english = true;
    let mut manager = TranscriptionManager::new();
    manager.load_model(&catalog, "small");
    manager.finish_load(Ok(()));
    assert_eq!(
        manager.transcribe(16000, &settings),
        TranscribeAction::Infer(DecodeParams {
            language: "de".to_string(),
            translate: true,
            suppress_blank: true,
            suppress_non_speech_tokens: true,
            no_speech_threshold: 20,
        })
    );
}

#[test]
fn remote_model_delegates() {
    let catalog = ModelManager::new();
    let settings = get_default_settings(Platform::Other);
    let mut manager = TranscriptionManager::new();
    manager.load_model(&catalog, "whisper-zero");
    assert_eq!(manager.transcribe(1, &settings), TranscribeAction::Delegate(Provider::Gladia));
}

#[test]
fn segments_are_joined_and_corrected() {
    let segments = vec![" helo".to_string(), " wrold. ".to_string()];
    let words = vec!["hello".to_string(), "world".to_string()];
    let threshold = Threshold { millionths: 300_000 };
    assert_eq!(finish_transcription(&segments, &words, threshold), "hello world.");
    // without words the segments come back as they are, white space included
    assert_eq!(finish_transcription(&segments, &[], threshold), " helo wrold. ");
    assert_eq!(finish_transcription(&vec![], &words, threshold), "");
    assert_eq!(finish_transcription(&vec!["  \n".to_string()], &[], threshold), "  \n");
    assert_eq!(finish_transcription(&vec!["  \n".to_string()], &words, threshold), "");
    assert_eq!(
        finish_transcription(&vec!["a".to_string(), "b".to_string(), " c".to_string()], &[], threshold),
        "ab c"
    );
}

#[test]
fn notifications_have_their_names() {
    assert_eq!(
        Notification::DownloadComplete { model_id: "small".to_string() }.name(),
        "model-download-complete"
    );
    assert_eq!(
        Notification::ExtractionStarted { model_id: "p".to_string() }.name(),
        "model-extraction-started"
    );
    assert_eq!(
        Notification::ExtractionCompleted { model_id: "p".to_string() }.name(),
        "model-extraction-completed"
    );
    assert_eq!(
        Notification::ExtractionFailed { model_id: "p".to_string(), error: "e".to_string() }.name(),
        "model-extraction-failed"
    );
    assert_eq!(
        Notification::ModelStateChanged(event("loading_started", "small", None, None)).name(),
        "model-state-changed"
    );
    let mut catalog = ModelManager::new();
    let transfer = catalog.begin_transfer("small", 0, 200, Some(10)).unwrap();
    assert_eq!(Notification::DownloadProgress(transfer.progress()).name(), "model-download-progress");
}

#[test]
fn empty_selection_loads_nothing() {
    let catalog = ModelManager::new();
    let mut manager = TranscriptionManager::new();
    let step = manager.load_model(&catalog, "");
    assert_eq!(step, LoadStep { events: vec![], next: LoadNext::Done(Err(Error::NoModelSelected)) });
    assert_eq!(Error::NoModelSelected.kind(), ErrorKind::Configuration);
    assert_eq!(manager.get_current_model(), None);
    manager.load_model(&catalog, "nova-3");
    manager.load_model(&catalog, "");
    assert_eq!(manager.get_current_model(), Some("nova-3".to_string()));
}

#[test]
fn white_space_stays_without_a_vocabulary() {
    let threshold = Threshold { millionths: 180_000 };
    assert_eq!(
        finish_transcription(&vec!["\u{a0} text \u{2003}\n".to_string()], &[], threshold),
        "\u{a0} text \u{2003}\n"
    );
}
