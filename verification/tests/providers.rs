use handy::audio::{encode_wav, wav_outcome, MAX_WAV_SAMPLES, SAMPLE_RATE};
use handy::error::{Error, ErrorKind, Provider};
use handy::managers::assemblyai::{
    convert_to_assemblyai_language, AssemblyAIAction, AssemblyAIApiManager, AssemblyAIEvent,
    AssemblyAITranscriptResponse, AssemblyAITranscriptStatus, AssemblyAIUploadResponse,
};
use handy::managers::deepgram::{
    transcript_of, DeepgramAction, DeepgramAlternative, DeepgramApiManager, DeepgramChannel,
    DeepgramEvent, DeepgramResults, DeepgramTranscriptionResponse,
};
use handy::managers::gladia::{
    convert_to_gladia_language, GladiaAction, GladiaApiManager, GladiaEvent,
    GladiaTranscriptionResponse, GladiaTranscriptionResult, GladiaUploadResponse,
};
use handy::managers::language::knows_language;
use handy::managers::mistral::{
    MistralAction, MistralApiManager, MistralEvent, MistralTranscriptionResponse,
};
use handy::managers::remote::{judge, JsonMember, Method, Pair, Payload, Request};

fn pair(name: &str, value: &str) -> Pair {
    Pair { name: name.to_string(), value: value.to_string() }
}

fn text(name: &str, value: &str) -> JsonMember {
    JsonMember::Text { name: name.to_string(), value: value.to_string() }
}

fn mistral_upload(key: &str, samples: &[i16]) -> Request {
    Request {
        method: Method::Post,
        url: "https://api.mistral.ai/v1/audio/transcriptions".to_string(),
        query: vec![],
        headers: vec![pair("Authorization", &format!("Bearer {}", key))],
        payload: Payload::Form {
            file_field: "file".to_string(),
            file_name: "audio.wav".to_string(),
            mime: "audio/wav".to_string(),
            bytes: expected_wav(samples),
            fields: vec![pair("model", "voxtral-mini-latest")],
        },
    }
}

fn deepgram_upload(key: &str, samples: &[i16]) -> Request {
    Request {
        method: Method::Post,
        url: "https://api.deepgram.com/v1/listen".to_string(),
        query: vec![pair("model", "nova-3"), pair("smart_format", "true"), pair("language", "multi")],
        headers: vec![
            pair("Authorization", &format!("Token {}", key)),
            pair("Content-Type", "audio/wav"),
        ],
        payload: Payload::Raw { bytes: expected_wav(samples) },
    }
}

fn assemblyai_upload(key: &str, samples: &[i16]) -> Request {
    Request {
        method: Method::Post,
        url: "https://api.assemblyai.com/v2/upload".to_string(),
        query: vec![],
        headers: vec![pair("authorization", key)],
        payload: Payload::Raw { bytes: expected_wav(samples) },
    }
}

fn assemblyai_submit(key: &str, audio_url: &str, language: Option<&str>) -> Request {
    let mut members = vec![text("audio_url", audio_url), text("speech_model", "universal")];
    if let Some(code) = language {
        members.push(text("language_code", code));
    }
    Request {
        method: Method::Post,
        url: "https://api.assemblyai.com/v2/transcript".to_string(),
        query: vec![],
        headers: vec![pair("authorization", key), pair("Content-Type", "application/json")],
        payload: Payload::Json { members },
    }
}

fn assemblyai_poll(key: &str, url: &str) -> Request {
    Request {
        method: Method::Get,
        url: url.to_string(),
        query: vec![],
        headers: vec![pair("authorization", key)],
        payload: Payload::Empty,
    }
}

fn gladia_upload(key: &str, samples: &[i16]) -> Request {
    Request {
        method: Method::Post,
        url: "https://api.gladia.io/v2/upload".to_string(),
        query: vec![],
        headers: vec![pair("x-gladia-key", key)],
        payload: Payload::Form {
            file_field: "audio".to_string(),
            file_name: "audio.wav".to_string(),
            mime: "audio/wav".to_string(),
            bytes: expected_wav(samples),
            fields: vec![],
        },
    }
}

fn gladia_submit(key: &str, audio_url: &str, language: Option<&str>) -> Request {
    let mut members = vec![
        text("audio_url", audio_url),
        JsonMember::Flag { name: "detect_language".to_string(), value: language.is_none() },
    ];
    if let Some(code) = language {
        members.push(text("language", code));
    }
    Request {
        method: Method::Post,
        url: "https://api.gladia.io/v2/pre-recorded".to_string(),
        query: vec![],
        headers: vec![pair("x-gladia-key", key), pair("Content-Type", "application/json")],
        payload: Payload::Json { members },
    }
}

fn gladia_poll(key: &str, url: &str) -> Request {
    Request {
        method: Method::Get,
        url: url.to_string(),
        query: vec![],
        headers: vec![pair("x-gladia-key", key)],
        payload: Payload::Empty,
    }
}

fn expected_wav(samples: &[i16]) -> Vec<u8> {
    let data_len = (samples.len() * 2) as u32;
    let mut bytes = Vec::new();
    bytes.extend_from_slice(b"RIFF");
    bytes.extend_from_slice(&(36 + data_len).to_le_bytes());
    bytes.extend_from_slice(b"WAVE");
    bytes.extend_from_slice(b"fmt ");
    bytes.extend_from_slice(&16u32.to_le_bytes());
    bytes.extend_from_slice(&1u16.to_le_bytes());
    bytes.extend_from_slice(&1u16.to_le_bytes());
    bytes.extend_from_slice(&16000u32.to_le_bytes());
    bytes.extend_from_slice(&32000u32.to_le_bytes());
    bytes.extend_from_slice(&2u16.to_le_bytes());
    bytes.extend_from_slice(&16u16.to_le_bytes());
    bytes.extend_from_slice(b"data");
    bytes.extend_from_slice(&data_len.to_le_bytes());
    for s in samples {
        bytes.extend_from_slice(&s.to_le_bytes());
    }
    bytes
}

#[test]
fn wav_is_mono_16_bit_at_16_khz() {
    let samples = vec![0i16, 1, -1, 32767, -32768, 256];
    assert_eq!(encode_wav(&samples), Ok(expected_wav(&samples)));
    assert_eq!(SAMPLE_RATE, 16_000);
}

#[test]
fn wav_of_no_samples_is_a_bare_header() {
    let wav = encode_wav(&vec![]).unwrap();
    assert_eq!(wav.len(), 44);
    assert_eq!(wav, expected_wav(&[]));
}

#[test]
fn wav_limit_leaves_room_for_the_header() {
    assert_eq!(MAX_WAV_SAMPLES as u64 * 2 + 36, u32::MAX as u64 - 1);
}

#[test]
fn encoder_failure_becomes_an_io_error() {
    assert_eq!(wav_outcome(Ok(vec![1, 2, 3])), Ok(vec![1, 2, 3]));
    let err = wav_outcome(Err("disk full".to_string())).unwrap_err();
    assert_eq!(err, Error::Io("disk full".to_string()));
    assert_eq!(err.kind(), ErrorKind::Filesystem);
}

#[test]
fn answers_are_judged_by_status_first() {
    let ok: Result<u8, String> = Ok(7);
    assert_eq!(judge(200, "b".to_string(), ok.clone()), Ok(7));
    assert_eq!(judge(299, "b".to_string(), ok.clone()), Ok(7));
    assert_eq!(
        judge(300, "moved".to_string(), ok.clone()),
        Err(Error::Http { status: 300, body: "moved".to_string() })
    );
    assert_eq!(
        judge(199, "early".to_string(), ok),
        Err(Error::Http { status: 199, body: "early".to_string() })
    );
    let bad: Result<u8, String> = Err("missing field".to_string());
    let err = judge(200, "{}".to_string(), bad.clone()).unwrap_err();
    assert_eq!(err, Error::Schema { failure: "missing field".to_string(), body: "{}".to_string() });
    assert_eq!(err.kind(), ErrorKind::Schema);
    assert_eq!(
        judge(500, "oops".to_string(), bad),
        Err(Error::Http { status: 500, body: "oops".to_string() })
    );
}

#[test]
fn shared_language_codes() {
    for code in ["es", "fr", "de", "zh", "cy", "te", "uk"] {
        assert!(knows_language(code));
    }
    for code in ["en", "auto", "", "xx", "ES", "e"] {
        assert!(!knows_language(code));
    }
}

#[test]
fn assemblyai_language_table() {
    assert_eq!(convert_to_assemblyai_language("auto"), "auto");
    assert_eq!(convert_to_assemblyai_language("en"), "en_us");
    assert_eq!(convert_to_assemblyai_language("de"), "de");
    assert_eq!(convert_to_assemblyai_language("cy"), "cy");
    assert_eq!(convert_to_assemblyai_language("tlh"), "en_us");
    assert_eq!(convert_to_assemblyai_language(""), "en_us");
}

#[test]
fn gladia_language_table() {
    assert_eq!(convert_to_gladia_language("auto"), "auto");
    assert_eq!(convert_to_gladia_language("en"), "en");
    assert_eq!(convert_to_gladia_language("ja"), "ja");
    assert_eq!(convert_to_gladia_language("tlh"), "en");
    assert_eq!(convert_to_gladia_language("EN"), "en");
}

// ---- variant A ----

#[test]
fn mistral_without_credential_fails_before_any_request() {
    let mut m = MistralApiManager::new();
    let action = m.transcribe(MistralEvent::Start { api_key: None, audio: vec![1, 2, 3] });
    assert_eq!(action, MistralAction::Finish(Err(Error::MissingCredential(Provider::Mistral))));
    if let MistralAction::Finish(Err(e)) = action {
        assert_eq!(e.kind(), ErrorKind::Configuration);
    }
}

#[test]
fn mistral_uploads_then_returns_the_text() {
    let mut m = MistralApiManager::new();
    let action =
        m.transcribe(MistralEvent::Start { api_key: Some("k".to_string()), audio: vec![5, -5] });
    assert_eq!(
        action,
        MistralAction::Upload { request: mistral_upload("k", &[5, -5]) }
    );
    let action = m.transcribe(MistralEvent::Answered {
        status: 200,
        body: "{\"text\":\"hi\"}".to_string(),
        parsed: Ok(MistralTranscriptionResponse { text: "hi".to_string() }),
    });
    assert_eq!(action, MistralAction::Finish(Ok("hi".to_string())));
}

#[test]
fn mistral_failures() {
    let start = || MistralEvent::Start { api_key: Some("k".to_string()), audio: vec![0] };
    let mut m = MistralApiManager::new();
    m.transcribe(start());
    assert_eq!(
        m.transcribe(MistralEvent::Answered {
            status: 401,
            body: "denied".to_string(),
            parsed: Err("x".to_string())
        }),
        MistralAction::Finish(Err(Error::Http { status: 401, body: "denied".to_string() }))
    );
    m.transcribe(start());
    assert_eq!(
        m.transcribe(MistralEvent::Answered {
            status: 200,
            body: "[]".to_string(),
            parsed: Err("invalid type".to_string())
        }),
        MistralAction::Finish(Err(Error::Schema {
            failure: "invalid type".to_string(),
            body: "[]".to_string()
        }))
    );
    m.transcribe(start());
    assert_eq!(
        m.transcribe(MistralEvent::Failed { message: "timeout".to_string() }),
        MistralAction::Finish(Err(Error::Network("timeout".to_string())))
    );
}

#[test]
fn mistral_rejects_events_out_of_turn() {
    let mut m = MistralApiManager::new();
    assert_eq!(
        m.transcribe(MistralEvent::Failed { message: "x".to_string() }),
        MistralAction::Finish(Err(Error::UnexpectedEvent))
    );
    assert_eq!(
        m.transcribe(MistralEvent::Answered {
            status: 200,
            body: String::new(),
            parsed: Ok(MistralTranscriptionResponse { text: "t".to_string() })
        }),
        MistralAction::Finish(Err(Error::UnexpectedEvent))
    );
    m.transcribe(MistralEvent::Start { api_key: Some("k".to_string()), audio: vec![] });
    assert_eq!(
        m.transcribe(MistralEvent::Start { api_key: Some("k".to_string()), audio: vec![] }),
        MistralAction::Finish(Err(Error::UnexpectedEvent))
    );
}

// ---- variant B ----

fn deepgram_response(transcripts: Vec<Vec<&str>>) -> DeepgramTranscriptionResponse {
    DeepgramTranscriptionResponse {
        results: DeepgramResults {
            channels: transcripts
                .into_iter()
                .map(|alts| DeepgramChannel {
                    alternatives: alts
                        .into_iter()
                        .map(|t| DeepgramAlternative { transcript: t.to_string() })
                        .collect(),
                })
                .collect(),
        },
    }
}

#[test]
fn deepgram_takes_first_alternative_of_first_channel() {
    assert_eq!(transcript_of(&deepgram_response(vec![vec!["a", "b"], vec!["c"]])), "a");
    assert_eq!(transcript_of(&deepgram_response(vec![])), "");
    assert_eq!(transcript_of(&deepgram_response(vec![vec![], vec!["c"]])), "");
}

#[test]
fn deepgram_without_credential_fails_before_any_request() {
    let mut m = DeepgramApiManager::new();
    assert_eq!(
        m.transcribe(DeepgramEvent::Start { api_key: None, audio: vec![1] }),
        DeepgramAction::Finish(Err(Error::MissingCredential(Provider::Deepgram)))
    );
}

#[test]
fn deepgram_uploads_then_returns_the_text() {
    let mut m = DeepgramApiManager::new();
    assert_eq!(
        m.transcribe(DeepgramEvent::Start { api_key: Some("dg".to_string()), audio: vec![9] }),
        DeepgramAction::Upload { request: deepgram_upload("dg", &[9]) }
    );
    assert_eq!(
        m.transcribe(DeepgramEvent::Answered {
            status: 200,
            body: "{}".to_string(),
            parsed: Ok(deepgram_response(vec![vec!["spoken words"]]))
        }),
        DeepgramAction::Finish(Ok("spoken words".to_string()))
    );
    // and the empty default
    m.transcribe(DeepgramEvent::Start { api_key: Some("dg".to_string()), audio: vec![9] });
    assert_eq!(
        m.transcribe(DeepgramEvent::Answered {
            status: 200,
            body: "{}".to_string(),
            parsed: Ok(deepgram_response(vec![]))
        }),
        DeepgramAction::Finish(Ok(String::new()))
    );
}

#[test]
fn deepgram_failures() {
    let mut m = DeepgramApiManager::new();
    m.transcribe(DeepgramEvent::Start { api_key: Some("dg".to_string()), audio: vec![9] });
    assert_eq!(
        m.transcribe(DeepgramEvent::Answered {
            status: 503,
            body: "busy".to_string(),
            parsed: Ok(deepgram_response(vec![vec!["ignored"]]))
        }),
        DeepgramAction::Finish(Err(Error::Http { status: 503, body: "busy".to_string() }))
    );
    assert_eq!(
        m.transcribe(DeepgramEvent::Failed { message: "late".to_string() }),
        DeepgramAction::Finish(Err(Error::UnexpectedEvent))
    );
}

// ---- variant C ----

fn assemblyai_until_polling(language: &str) -> (AssemblyAIApiManager, AssemblyAIAction) {
    let mut m = AssemblyAIApiManager::new();
    let upload = m.transcribe(AssemblyAIEvent::Start {
        api_key: Some("key".to_string()),
        language: language.to_string(),
        audio: vec![1, 2],
    });
    assert_eq!(
        upload,
        AssemblyAIAction::Upload { request: assemblyai_upload("key", &[1, 2]) }
    );
    let submit = m.transcribe(AssemblyAIEvent::Uploaded {
        status: 200,
        body: String::new(),
        parsed: Ok(AssemblyAIUploadResponse { upload_url: "https://cdn/audio".to_string() }),
    });
    let poll = m.transcribe(AssemblyAIEvent::Submitted {
        status: 200,
        body: String::new(),
        parsed: Ok(AssemblyAITranscriptResponse { id: "job42".to_string() }),
    });
    assert_eq!(
        poll,
        AssemblyAIAction::Poll {
            request: assemblyai_poll("key", "https://api.assemblyai.com/v2/transcript/job42")
        }
    );
    (m, submit)
}

fn job(status: &str, text: Option<&str>, error: Option<&str>) -> AssemblyAIEvent {
    AssemblyAIEvent::Polled {
        status: 200,
        body: String::new(),
        parsed: Ok(AssemblyAITranscriptStatus {
            status: status.to_string(),
            text: text.map(|t| t.to_string()),
            error: error.map(|t| t.to_string()),
        }),
    }
}

#[test]
fn assemblyai_without_credential_fails_before_any_request() {
    let mut m = AssemblyAIApiManager::new();
    assert_eq!(
        m.transcribe(AssemblyAIEvent::Start {
            api_key: None,
            language: "en".to_string(),
            audio: vec![1]
        }),
        AssemblyAIAction::Finish(Err(Error::MissingCredential(Provider::AssemblyAi)))
    );
}

#[test]
fn assemblyai_submits_language_unless_auto() {
    let (_, submit) = assemblyai_until_polling("en");
    assert_eq!(
        submit,
        AssemblyAIAction::Submit {
            request: assemblyai_submit("key", "https://cdn/audio", Some("en_us"))
        }
    );
    let (_, submit) = assemblyai_until_polling("auto");
    assert_eq!(
        submit,
        AssemblyAIAction::Submit { request: assemblyai_submit("key", "https://cdn/audio", None) }
    );
}

#[test]
fn assemblyai_polls_every_three_seconds_until_completed() {
    let (mut m, _) = assemblyai_until_polling("fr");
    let poll = AssemblyAIAction::Poll {
        request: assemblyai_poll("key", "https://api.assemblyai.com/v2/transcript/job42"),
    };
    for status in ["queued", "processing", "", "COMPLETED"] {
        assert_eq!(m.transcribe(job(status, Some("early"), None)), AssemblyAIAction::Wait { seconds: 3 });
        assert_eq!(m.transcribe(AssemblyAIEvent::Waited), poll);
    }
    assert_eq!(
        m.transcribe(job("completed", Some("bonjour"), None)),
        AssemblyAIAction::Finish(Ok("bonjour".to_string()))
    );
    // the adapter is free again
    assert_eq!(
        m.transcribe(AssemblyAIEvent::Waited),
        AssemblyAIAction::Finish(Err(Error::UnexpectedEvent))
    );
}

#[test]
fn assemblyai_completed_without_text_is_empty() {
    let (mut m, _) = assemblyai_until_polling("fr");
    assert_eq!(m.transcribe(job("completed", None, None)), AssemblyAIAction::Finish(Ok(String::new())));
}

#[test]
fn assemblyai_reports_provider_failure() {
    let (mut m, _) = assemblyai_until_polling("fr");
    let action = m.transcribe(job("error", None, Some("bad audio")));
    assert_eq!(action, AssemblyAIAction::Finish(Err(Error::Provider("bad audio".to_string()))));
    if let AssemblyAIAction::Finish(Err(e)) = action {
        assert_eq!(e.kind(), ErrorKind::Provider);
    }
    let (mut m, _) = assemblyai_until_polling("fr");
    assert_eq!(
        m.transcribe(job("error", None, None)),
        AssemblyAIAction::Finish(Err(Error::Provider("Unknown error".to_string())))
    );
}

#[test]
fn assemblyai_retries_a_failed_poll() {
    let (mut m, _) = assemblyai_until_polling("fr");
    assert_eq!(
        m.transcribe(AssemblyAIEvent::Polled {
            status: 502,
            body: "bad gateway".to_string(),
            parsed: Err("x".to_string())
        }),
        AssemblyAIAction::Wait { seconds: 3 }
    );
    m.transcribe(AssemblyAIEvent::Waited);
    assert_eq!(
        m.transcribe(AssemblyAIEvent::Polled {
            status: 200,
            body: "<html>".to_string(),
            parsed: Err("expected value".to_string())
        }),
        AssemblyAIAction::Wait { seconds: 3 }
    );
    m.transcribe(AssemblyAIEvent::Waited);
    assert_eq!(
        m.transcribe(AssemblyAIEvent::Failed { message: "reset".to_string() }),
        AssemblyAIAction::Wait { seconds: 3 }
    );
}

#[test]
fn assemblyai_upload_and_submit_failures_end_the_transcription() {
    let start = || AssemblyAIEvent::Start {
        api_key: Some("key".to_string()),
        language: "en".to_string(),
        audio: vec![1],
    };
    let mut m = AssemblyAIApiManager::new();
    m.transcribe(start());
    assert_eq!(
        m.transcribe(AssemblyAIEvent::Uploaded {
            status: 413,
            body: "too large".to_string(),
            parsed: Err("x".to_string())
        }),
        AssemblyAIAction::Finish(Err(Error::Http { status: 413, body: "too large".to_string() }))
    );
    m.transcribe(start());
    assert_eq!(
        m.transcribe(AssemblyAIEvent::Failed { message: "dns".to_string() }),
        AssemblyAIAction::Finish(Err(Error::Network("dns".to_string())))
    );
    m.transcribe(start());
    m.transcribe(AssemblyAIEvent::Uploaded {
        status: 200,
        body: String::new(),
        parsed: Ok(AssemblyAIUploadResponse { upload_url: "u".to_string() }),
    });
    assert_eq!(
        m.transcribe(AssemblyAIEvent::Submitted {
            status: 200,
            body: "{}".to_string(),
            parsed: Err("missing field `id`".to_string())
        }),
        AssemblyAIAction::Finish(Err(Error::Schema {
            failure: "missing field `id`".to_string(),
            body: "{}".to_string()
        }))
    );
}

#[test]
fn assemblyai_can_be_called_off() {
    let (mut m, _) = assemblyai_until_polling("fr");
    m.transcribe(job("processing", None, None));
    let action = m.transcribe(AssemblyAIEvent::Cancelled);
    assert_eq!(action, AssemblyAIAction::Finish(Err(Error::Cancelled)));
    assert_eq!(
        m.transcribe(AssemblyAIEvent::Waited),
        AssemblyAIAction::Finish(Err(Error::UnexpectedEvent))
    );
}

// ---- variant D ----

fn gladia_until_polling(language: &str) -> (GladiaApiManager, GladiaAction) {
    let mut m = GladiaApiManager::new();
    let upload = m.transcribe(GladiaEvent::Start {
        api_key: Some("gk".to_string()),
        language: language.to_string(),
        audio: vec![3],
    });
    assert_eq!(upload, GladiaAction::Upload { request: gladia_upload("gk", &[3]) });
    let submit = m.transcribe(GladiaEvent::Uploaded {
        status: 201,
        body: String::new(),
        parsed: Ok(GladiaUploadResponse { audio_url: "https://g/a".to_string() }),
    });
    let poll = m.transcribe(GladiaEvent::Submitted {
        status: 201,
        body: String::new(),
        parsed: Ok(GladiaTranscriptionResponse {
            id: "j1".to_string(),
            result_url: "https://g/result/j1".to_string(),
        }),
    });
    assert_eq!(
        poll,
        GladiaAction::Poll { request: gladia_poll("gk", "https://g/result/j1") }
    );
    (m, submit)
}

#[test]
fn gladia_without_credential_fails_before_any_request() {
    let mut m = GladiaApiManager::new();
    assert_eq!(
        m.transcribe(GladiaEvent::Start { api_key: None, language: "en".to_string(), audio: vec![1] }),
        GladiaAction::Finish(Err(Error::MissingCredential(Provider::Gladia)))
    );
}

#[test]
fn gladia_detects_language_only_for_auto() {
    let (_, submit) = gladia_until_polling("auto");
    assert_eq!(
        submit,
        GladiaAction::Submit { request: gladia_submit("gk", "https://g/a", None) }
    );
    let (_, submit) = gladia_until_polling("xx");
    assert_eq!(
        submit,
        GladiaAction::Submit { request: gladia_submit("gk", "https://g/a", Some("en")) }
    );
}

#[test]
fn gladia_polls_every_two_seconds_until_a_transcript_is_there() {
    let (mut m, _) = gladia_until_polling("de");
    let pending = [
        GladiaEvent::Polled {
            status: 200,
            body: "{\"status\":\"queued\"}".to_string(),
            parsed: Err("missing field `result`".to_string()),
        },
        GladiaEvent::Polled {
            status: 200,
            body: String::new(),
            parsed: Ok(GladiaTranscriptionResult { full_transcript: None }),
        },
        GladiaEvent::Polled {
            status: 500,
            body: String::new(),
            parsed: Ok(GladiaTranscriptionResult { full_transcript: Some("no".to_string()) }),
        },
        GladiaEvent::Failed { message: "reset".to_string() },
    ];
    for event in pending {
        assert_eq!(m.transcribe(event), GladiaAction::Wait { seconds: 2 });
        assert_eq!(
            m.transcribe(GladiaEvent::Waited),
            GladiaAction::Poll { request: gladia_poll("gk", "https://g/result/j1") }
        );
    }
    assert_eq!(
        m.transcribe(GladiaEvent::Polled {
            status: 200,
            body: String::new(),
            parsed: Ok(GladiaTranscriptionResult { full_transcript: Some("hallo".to_string()) }),
        }),
        GladiaAction::Finish(Ok("hallo".to_string()))
    );
}

#[test]
fn gladia_upload_failure_ends_the_transcription() {
    let mut m = GladiaApiManager::new();
    m.transcribe(GladiaEvent::Start {
        api_key: Some("gk".to_string()),
        language: "de".to_string(),
        audio: vec![3],
    });
    assert_eq!(
        m.transcribe(GladiaEvent::Uploaded {
            status: 403,
            body: "no".to_string(),
            parsed: Err("x".to_string())
        }),
        GladiaAction::Finish(Err(Error::Http { status: 403, body: "no".to_string() }))
    );
    assert_eq!(
        m.transcribe(GladiaEvent::Cancelled),
        GladiaAction::Finish(Err(Error::Cancelled))
    );
}
