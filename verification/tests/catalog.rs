use handy::download::{range_header, Completion, DownloadPlan, Transfer};
use handy::error::{Error, ErrorKind};
use handy::model::{
    is_api_model, migrate_bundled_models, ArtifactProbe, DeletePlan, EngineType, ModelManager,
    API_MODEL_IDS,
};

fn probe(artifact: bool, dir: bool, partial: Option<u64>) -> ArtifactProbe {
    ArtifactProbe {
        artifact_exists: artifact,
        artifact_is_dir: dir,
        partial_exists: partial.is_some(),
        partial_size: partial.unwrap_or(0),
    }
}

fn nothing() -> ArtifactProbe {
    probe(false, false, None)
}

#[test]
fn api_models_are_recognised() {
    for id in API_MODEL_IDS {
        assert!(is_api_model(id));
    }
    assert!(!is_api_model("small"));
    assert!(!is_api_model("nova-3 "));
    assert!(!is_api_model(""));
}

#[test]
fn catalog_lists_ten_models_in_order() {
    let manager = ModelManager::new();
    let models = manager.get_available_models();
    let ids: Vec<&str> = models.iter().map(|m| m.id.as_str()).collect();
    assert_eq!(
        ids,
        vec![
            "small",
            "medium",
            "turbo",
            "large",
            "parakeet-tdt-0.6b-v2",
            "parakeet-tdt-0.6b-v3",
            "voxtral-mini",
            "nova-3",
            "universal",
            "whisper-zero"
        ]
    );
    assert_eq!(models[4].engine_type, EngineType::Parakeet);
    assert!(models[4].is_directory);
    assert_eq!(models[4].filename, "parakeet-tdt-0.6b-v2-int8");
    assert_eq!(models[0].size_mb, 487);
    assert_eq!(models[0].accuracy_score, 60);
    assert_eq!(models[0].speed_score, 85);
    assert_eq!(
        models[2].url.as_deref(),
        Some("https://blob.handy.computer/ggml-large-v3-turbo.bin")
    );
}

#[test]
fn remote_models_have_no_url_and_count_as_downloaded() {
    let manager = ModelManager::new();
    for m in manager.get_available_models() {
        assert_eq!(m.url.is_none(), is_api_model(&m.id));
        if m.url.is_none() {
            assert!(m.is_downloaded && !m.is_downloading && m.partial_size == 0);
            assert_eq!(m.filename, "");
        } else {
            assert!(!m.is_downloaded && !m.is_downloading);
        }
    }
}

#[test]
fn model_info_is_found_by_id() {
    let manager = ModelManager::new();
    let large = manager.get_model_info("large").unwrap();
    assert_eq!(large.name, "Whisper Large");
    assert_eq!(large.description, "Good accuracy, but slow.");
    assert_eq!(manager.get_model_info("huge"), None);
}

#[test]
fn sidecar_names_follow_the_artifact() {
    let manager = ModelManager::new();
    let v3 = manager.get_model_info("parakeet-tdt-0.6b-v3").unwrap();
    assert_eq!(v3.partial_name(), "parakeet-tdt-0.6b-v3-int8.partial");
    assert_eq!(v3.extracting_name(), "parakeet-tdt-0.6b-v3-int8.extracting");
}

#[test]
fn path_is_given_only_when_downloaded_and_not_downloading() {
    let mut manager = ModelManager::new();
    let err = manager.get_model_path("small").unwrap_err();
    assert_eq!(err, Error::NotDownloaded("small".to_string()));
    assert_eq!(err.kind(), ErrorKind::State);

    manager.update_download_status(&vec![probe(true, false, None)]);
    assert_eq!(manager.get_model_path("small"), Ok("ggml-small.bin".to_string()));

    manager.update_download_status(&vec![probe(true, false, Some(10))]);
    let err = manager.get_model_path("small").unwrap_err();
    assert_eq!(err, Error::Downloading("small".to_string()));
    assert_eq!(err.kind(), ErrorKind::State);
}

#[test]
fn remote_models_never_have_a_path() {
    let manager = ModelManager::new();
    for id in API_MODEL_IDS {
        let err = manager.get_model_path(id).unwrap_err();
        assert_eq!(err, Error::NoLocalPath(id.to_string()));
        assert_eq!(err.kind(), ErrorKind::Configuration);
    }
}

#[test]
fn unknown_model_has_no_path() {
    let manager = ModelManager::new();
    let err = manager.get_model_path("tiny").unwrap_err();
    assert_eq!(err, Error::ModelNotFound("tiny".to_string()));
    assert_eq!(err.kind(), ErrorKind::NotFound);
}

#[test]
fn probing_sets_the_status_of_local_models_only() {
    let mut manager = ModelManager::new();
    let probes = vec![
        probe(true, false, None),
        probe(false, false, Some(1234)),
        nothing(),
        nothing(),
        probe(true, false, None),
        probe(true, true, None),
        probe(false, false, Some(99)),
    ];
    manager.update_download_status(&probes);
    let models = manager.get_available_models();
    assert!(models[0].is_downloaded && !models[0].is_downloading);
    assert!(!models[1].is_downloaded && models[1].is_downloading);
    assert_eq!(models[1].partial_size, 1234);
    assert!(!models[2].is_downloaded);
    // a directory model needs a directory
    assert!(!models[4].is_downloaded);
    assert!(models[5].is_downloaded);
    // a remote model keeps its status whatever the probe says
    assert!(models[6].is_downloaded && !models[6].is_downloading);
    assert_eq!(models[6].partial_size, 0);
    // no probe, no change
    assert!(models[9].is_downloaded);
}

#[test]
fn partial_size_is_zero_without_a_partial_download() {
    let mut manager = ModelManager::new();
    let stale = ArtifactProbe {
        artifact_exists: false,
        artifact_is_dir: false,
        partial_exists: false,
        partial_size: 77,
    };
    manager.update_download_status(&vec![stale]);
    assert_eq!(manager.get_model_info("small").unwrap().partial_size, 0);
}

#[test]
fn auto_select_takes_the_first_downloaded_model() {
    let mut manager = ModelManager::new();
    assert_eq!(manager.auto_select_model_if_needed(""), Some("voxtral-mini".to_string()));
    assert_eq!(manager.auto_select_model_if_needed("turbo"), None);
    manager.update_download_status(&vec![nothing(), probe(true, false, None)]);
    assert_eq!(manager.auto_select_model_if_needed(""), Some("medium".to_string()));
}

#[test]
fn cancel_only_clears_the_downloading_flag() {
    let mut manager = ModelManager::new();
    manager.update_download_status(&vec![probe(false, false, Some(500))]);
    assert!(manager.get_model_info("small").unwrap().is_downloading);
    assert_eq!(manager.cancel_download("small"), Ok(()));
    let small = manager.get_model_info("small").unwrap();
    assert!(!small.is_downloading);
    assert_eq!(small.partial_size, 500);
    assert!(!small.is_downloaded);
    assert_eq!(manager.cancel_download("nova-3"), Ok(()));
    assert_eq!(
        manager.cancel_download("nope"),
        Err(Error::ModelNotFound("nope".to_string()))
    );
}

#[test]
fn delete_plans_what_is_there() {
    let manager = ModelManager::new();
    assert_eq!(
        manager.delete_model("small", probe(true, false, Some(3))),
        Ok(DeletePlan { remove_directory: false, remove_file: true, remove_partial: true })
    );
    assert_eq!(
        manager.delete_model("parakeet-tdt-0.6b-v2", probe(true, true, None)),
        Ok(DeletePlan { remove_directory: true, remove_file: false, remove_partial: false })
    );
    // a file where a directory should be is left alone
    assert_eq!(
        manager.delete_model("parakeet-tdt-0.6b-v2", probe(true, false, Some(1))),
        Ok(DeletePlan { remove_directory: false, remove_file: false, remove_partial: true })
    );
}

#[test]
fn delete_fails_with_nothing_to_delete() {
    let manager = ModelManager::new();
    let err = manager.delete_model("small", nothing()).unwrap_err();
    assert_eq!(err, Error::NothingToDelete("small".to_string()));
    assert_eq!(err.kind(), ErrorKind::Filesystem);
    assert_eq!(
        manager.delete_model("other", nothing()),
        Err(Error::ModelNotFound("other".to_string()))
    );
    assert_eq!(
        manager.delete_model("universal", nothing()),
        Ok(DeletePlan { remove_directory: false, remove_file: false, remove_partial: false })
    );
}

#[test]
fn download_is_skipped_for_remote_models() {
    let mut manager = ModelManager::new();
    assert_eq!(manager.download_model("whisper-zero", nothing()), Ok(DownloadPlan::Skip));
}

#[test]
fn download_of_unknown_model_fails() {
    let mut manager = ModelManager::new();
    assert_eq!(
        manager.download_model("tiny", nothing()),
        Err(Error::ModelNotFound("tiny".to_string()))
    );
}

#[test]
fn download_is_a_no_op_when_the_artifact_exists() {
    let mut manager = ModelManager::new();
    assert_eq!(
        manager.download_model("small", probe(true, false, Some(10))),
        Ok(DownloadPlan::AlreadyComplete { remove_partial: true })
    );
    let small = manager.get_model_info("small").unwrap();
    assert!(small.is_downloaded && !small.is_downloading);
    assert_eq!(small.partial_size, 0);
    assert_eq!(
        manager.download_model("medium", probe(true, false, None)),
        Ok(DownloadPlan::AlreadyComplete { remove_partial: false })
    );
}

#[test]
fn fresh_download_starts_at_zero_and_marks_downloading() {
    let mut manager = ModelManager::new();
    assert_eq!(
        manager.download_model("small", nothing()),
        Ok(DownloadPlan::Fetch {
            url: "https://blob.handy.computer/ggml-small.bin".to_string(),
            resume_from: 0,
            range: None
        })
    );
    assert!(manager.get_model_info("small").unwrap().is_downloading);
}

#[test]
fn resumed_download_asks_from_the_size_of_the_partial() {
    let mut manager = ModelManager::new();
    let plan = manager.download_model("turbo", probe(false, false, Some(4096))).unwrap();
    assert_eq!(
        plan,
        DownloadPlan::Fetch {
            url: "https://blob.handy.computer/ggml-large-v3-turbo.bin".to_string(),
            resume_from: 4096,
            range: Some("bytes=4096-".to_string())
        }
    );
}

#[test]
fn transfer_counts_chunks_up_to_the_total() {
    let mut manager = ModelManager::new();
    manager.download_model("small", probe(false, false, Some(100))).unwrap();
    let mut transfer = manager.begin_transfer("small", 100, 206, Some(300)).unwrap();
    assert_eq!(
        transfer,
        Transfer { model_id: "small".to_string(), downloaded: 100, total: 400 }
    );
    let first = transfer.progress();
    assert_eq!((first.downloaded, first.total, first.percentage), (100, 400, 25));
    let p = transfer.record_chunk(100);
    assert_eq!((p.downloaded, p.total, p.percentage), (200, 400, 50));
    assert_eq!(p.model_id, "small");
    transfer.record_chunk(133);
    let p = transfer.record_chunk(67);
    assert_eq!((p.downloaded, p.total, p.percentage), (400, 400, 100));
    assert_eq!(transfer.downloaded, transfer.total);
}

#[test]
fn percentage_rounds_down_and_is_zero_without_total() {
    let mut t = Transfer { model_id: "x".to_string(), downloaded: 0, total: 3 };
    assert_eq!(t.record_chunk(1).percentage, 33);
    assert_eq!(t.record_chunk(1).percentage, 66);
    let mut unknown = Transfer { model_id: "x".to_string(), downloaded: 0, total: 0 };
    assert_eq!(unknown.record_chunk(1000).percentage, 0);
}

#[test]
fn chunk_count_stops_at_the_largest_number() {
    let mut t = Transfer { model_id: "x".to_string(), downloaded: u64::MAX - 1, total: 0 };
    let p = t.record_chunk(5);
    assert_eq!(p.downloaded, u64::MAX);
}

#[test]
fn total_is_unknown_without_content_length_on_fresh_download() {
    let mut manager = ModelManager::new();
    let t = manager.begin_transfer("small", 0, 200, None).unwrap();
    assert_eq!((t.downloaded, t.total), (0, 0));
    let t = manager.begin_transfer("small", 50, 206, None).unwrap();
    assert_eq!((t.downloaded, t.total), (50, 50));
    let t = manager.begin_transfer("small", u64::MAX, 206, Some(1)).unwrap();
    assert_eq!(t.total, 0);
}

#[test]
fn refused_request_clears_the_downloading_flag() {
    let mut manager = ModelManager::new();
    manager.download_model("small", nothing()).unwrap();
    assert!(manager.get_model_info("small").unwrap().is_downloading);
    let err = manager.begin_transfer("small", 0, 404, Some(10)).unwrap_err();
    assert_eq!(err, Error::Http { status: 404, body: String::new() });
    assert_eq!(err.kind(), ErrorKind::Transport);
    assert!(!manager.get_model_info("small").unwrap().is_downloading);
}

#[test]
fn broken_transfer_clears_the_downloading_flag() {
    let mut manager = ModelManager::new();
    manager.download_model("small", nothing()).unwrap();
    manager.fail_download("small");
    let small = manager.get_model_info("small").unwrap();
    assert!(!small.is_downloading && !small.is_downloaded);
}

#[test]
fn completion_depends_on_the_packaging() {
    let manager = ModelManager::new();
    assert_eq!(manager.completion("small"), Ok(Completion::Rename));
    assert_eq!(manager.completion("parakeet-tdt-0.6b-v3"), Ok(Completion::Extract));
    assert_eq!(manager.completion("nova-3"), Err(Error::NoLocalPath("nova-3".to_string())));
    assert_eq!(manager.completion("x"), Err(Error::ModelNotFound("x".to_string())));
}

#[test]
fn completed_download_is_downloaded() {
    let mut manager = ModelManager::new();
    manager.download_model("large", probe(false, false, Some(7))).unwrap();
    assert_eq!(manager.complete_download("large"), Ok(()));
    let large = manager.get_model_info("large").unwrap();
    assert!(large.is_downloaded && !large.is_downloading);
    assert_eq!(large.partial_size, 0);
    assert_eq!(manager.get_model_path("large"), Ok("ggml-large-v3-q5_0.bin".to_string()));
    assert_eq!(
        manager.complete_download("zzz"),
        Err(Error::ModelNotFound("zzz".to_string()))
    );
}

#[test]
fn bundled_model_is_copied_only_when_missing() {
    assert!(migrate_bundled_models(true, false));
    assert!(!migrate_bundled_models(true, true));
    assert!(!migrate_bundled_models(false, false));
    assert!(!migrate_bundled_models(false, true));
}

#[test]
fn range_asks_for_everything_from_the_offset() {
    assert_eq!(range_header(0), None);
    assert_eq!(range_header(1), Some("bytes=1-".to_string()));
    assert_eq!(range_header(9), Some("bytes=9-".to_string()));
    assert_eq!(range_header(10), Some("bytes=10-".to_string()));
    assert_eq!(range_header(1_000_000), Some("bytes=1000000-".to_string()));
    assert_eq!(range_header(u64::MAX), Some("bytes=18446744073709551615-".to_string()));
}

#[test]
fn workspaces_of_directory_models_are_cleared_at_startup() {
    let manager = ModelManager::new();
    assert_eq!(
        manager.leftover_workspaces(),
        vec![
            "parakeet-tdt-0.6b-v2-int8.extracting".to_string(),
            "parakeet-tdt-0.6b-v3-int8.extracting".to_string()
        ]
    );
}
