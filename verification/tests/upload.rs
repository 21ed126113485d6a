use openrouter_stt::json::{JsonMember, JsonValue};
use openrouter_stt::retry::{
    after_attempt, prepare_transcription, prepare_upload, RetryDecision, FIRST_RETRY_BACKOFF_NS,
    MAX_TRANSCRIPTION_ATTEMPTS, SECOND_RETRY_BACKOFF_NS,
};
use openrouter_stt::payload::build_payload;
use openrouter_stt::settings::{AppSettings, TranscriptionProvider, PROVIDER_ID};
use openrouter_stt::upload::{
    after_body, after_send, status_error, transcription_text, BodyOutcome, SendOutcome,
    UploadError,
};

fn settings_with_key(key: &str) -> AppSettings {
    AppSettings {
        transcription_provider: TranscriptionProvider::OpenRouter,
        openrouter_transcription_model: "openai/whisper-large-v3".to_string(),
        post_process_api_keys: vec![(PROVIDER_ID.to_string(), key.to_string())],
        ..Default::default()
    }
}

fn text_response(text: &str) -> JsonValue {
    JsonValue::Object(vec![JsonMember {
        key: "text".to_string(),
        value: JsonValue::Str(text.to_string()),
    }])
}

#[test]
fn upload_error_constructors_classify() {
    let e = UploadError::retryable("x".to_string());
    assert!(e.retryable);
    assert_eq!(e.message, "x");
    let e = UploadError::fatal("y".to_string());
    assert!(!e.retryable);
    assert_eq!(e.message, "y");
}

#[test]
fn status_errors_have_actionable_messages() {
    let e = status_error("transcription", 401);
    assert_eq!(
        e.message,
        "OpenRouter rejected the API key (401). Re-enter it in Settings → Models."
    );
    assert!(!e.retryable);
    assert_eq!(
        status_error("transcription", 402).message,
        "OpenRouter has insufficient credits for this request (402)."
    );
    assert_eq!(
        status_error("transcription", 403).message,
        "OpenRouter denied access to this model (403)."
    );
    assert_eq!(
        status_error("transcription", 404).message,
        "This transcription model is unavailable on OpenRouter (404). Pick another model."
    );
    assert_eq!(
        status_error("transcription", 413).message,
        "The recording is too large for OpenRouter (413)."
    );
    let e = status_error("transcription", 429);
    assert_eq!(
        e.message,
        "OpenRouter rate-limited the request (429). Try again in a moment."
    );
    assert!(e.retryable);
}

#[test]
fn other_statuses_name_code_and_reason_and_are_final() {
    let e = status_error("transcription", 503);
    assert_eq!(e.message, "transcription failed with status 503 Service Unavailable");
    assert!(!e.retryable);
    let e = status_error("model list", 500);
    assert_eq!(e.message, "model list failed with status 500 Internal Server Error");
    assert!(!e.retryable);
    let e = status_error("transcription", 599);
    assert!(e.message.contains("599"), "got: {}", e.message);
    assert!(!e.retryable);
}

#[test]
fn only_connection_failures_are_retryable_transport_errors() {
    let e = after_send(
        "transcription",
        SendOutcome::Failed { message: "refused".to_string(), connect: true },
    )
    .unwrap_err();
    assert!(e.retryable);
    assert_eq!(e.message, "refused");
    let e = after_send(
        "transcription",
        SendOutcome::Failed { message: "reset".to_string(), connect: false },
    )
    .unwrap_err();
    assert!(!e.retryable);
}

#[test]
fn stalled_requests_time_out_finally() {
    let e = after_send("transcription", SendOutcome::TimedOut).unwrap_err();
    assert_eq!(e.message, "OpenRouter request timed out (transcription)");
    assert!(!e.retryable);
    let e = after_body("transcription", BodyOutcome::TimedOut).unwrap_err();
    assert_eq!(e.message, "OpenRouter request timed out (transcription response)");
    assert!(!e.retryable);
}

#[test]
fn success_status_reads_the_body() {
    assert!(after_send("transcription", SendOutcome::Response { status: 200 }).is_ok());
    assert!(after_send("transcription", SendOutcome::Response { status: 204 }).is_ok());
    let e = after_send("transcription", SendOutcome::Response { status: 401 }).unwrap_err();
    assert!(e.message.contains("401"));
    assert!(!e.message.contains("PRIVATE PROVIDER DETAIL"));
    let e = after_send("transcription", SendOutcome::Response { status: 301 }).unwrap_err();
    assert!(e.message.contains("301"));
    assert_eq!(
        after_body("transcription", BodyOutcome::Bytes(b"{}".to_vec())).unwrap(),
        b"{}".to_vec()
    );
    let e = after_body(
        "transcription",
        BodyOutcome::Failed { message: "truncated".to_string() },
    )
    .unwrap_err();
    assert!(!e.retryable);
}

#[test]
fn transcription_text_is_taken_from_the_text_member() {
    let parsed = text_response("OpenRouter transcription test.");
    assert_eq!(
        transcription_text(Some(&parsed)).unwrap(),
        "OpenRouter transcription test."
    );
}

#[test]
fn malformed_transcription_responses_are_final() {
    let no_text = JsonValue::Object(vec![JsonMember {
        key: "choices".to_string(),
        value: JsonValue::Array(vec![]),
    }]);
    let e = transcription_text(Some(&no_text)).unwrap_err();
    assert!(e.message.contains("no text"), "got: {}", e.message);
    assert!(!e.retryable);
    let number = JsonValue::Object(vec![JsonMember {
        key: "text".to_string(),
        value: JsonValue::Number("1".to_string()),
    }]);
    assert!(transcription_text(Some(&number)).is_err());
    let e = transcription_text(None).unwrap_err();
    assert_eq!(e.message, "OpenRouter returned a malformed transcription response");
    assert!(!e.retryable);
}

#[test]
fn empty_audio_is_not_uploaded() {
    let plan = prepare_transcription(&settings_with_key("test-key"), 0).unwrap();
    assert!(plan.is_none());
}

#[test]
fn transcription_needs_model_and_key() {
    let mut settings = settings_with_key("test-key");
    settings.openrouter_transcription_model = "   ".to_string();
    assert_eq!(
        prepare_transcription(&settings, 10).unwrap_err(),
        "No OpenRouter transcription model is selected"
    );
    assert_eq!(
        prepare_transcription(&settings_with_key("  "), 10).unwrap_err(),
        "OpenRouter transcription needs an API key"
    );
    let mut no_key = settings_with_key("k");
    no_key.post_process_api_keys.clear();
    assert_eq!(
        prepare_transcription(&no_key, 0).unwrap_err(),
        "OpenRouter transcription needs an API key"
    );
}

#[test]
fn upload_plan_carries_trimmed_model_key_and_hint() {
    let mut settings = settings_with_key("test-key");
    settings.openrouter_transcription_model = "  openai/whisper-large-v3 ".to_string();
    settings.selected_language = "zh-Hant".to_string();
    let plan = prepare_transcription(&settings, 800).unwrap().unwrap();
    assert_eq!(plan.model, "openai/whisper-large-v3");
    assert_eq!(plan.api_key, "test-key");
    assert_eq!(plan.language, Some("zh".to_string()));
}

#[test]
fn prepared_upload_carries_key_and_the_same_body_as_the_payload() {
    let mut settings = settings_with_key("test-key");
    settings.openrouter_transcription_model = " openai/whisper-large-v3 ".to_string();
    settings.selected_language = "zh-Hans".to_string();
    let samples: Vec<i16> = vec![16383, -16383, 7];
    let upload = prepare_upload(&settings, &samples).unwrap().unwrap();
    assert_eq!(upload.api_key, "test-key");
    let expected = build_payload(
        &samples,
        "openai/whisper-large-v3".to_string(),
        Some("zh".to_string()),
    )
    .unwrap();
    assert_eq!(upload.body, expected);
    let json: serde_json::Value = serde_json::from_slice(&upload.body).unwrap();
    assert_eq!(json["model"], "openai/whisper-large-v3");
    assert_eq!(json["language"], "zh");
}

#[test]
fn prepared_upload_checks_settings_before_audio() {
    let mut settings = settings_with_key("test-key");
    settings.openrouter_transcription_model = String::new();
    assert_eq!(
        prepare_upload(&settings, &[1, 2]).unwrap_err(),
        "No OpenRouter transcription model is selected"
    );
    assert_eq!(
        prepare_upload(&settings_with_key(" "), &[1, 2]).unwrap_err(),
        "OpenRouter transcription needs an API key"
    );
    assert!(prepare_upload(&settings_with_key("k"), &[]).unwrap().is_none());
    let mut auto = settings_with_key("k");
    auto.selected_language = "auto".to_string();
    let upload = prepare_upload(&auto, &[5]).unwrap().unwrap();
    let json: serde_json::Value = serde_json::from_slice(&upload.body).unwrap();
    assert!(json.get("language").is_none());
}

fn decide(attempt: usize, outcome: Result<String, UploadError>, remaining: u64) -> RetryDecision {
    after_attempt(attempt, outcome, remaining)
}

#[test]
fn rate_limit_is_retried_then_succeeds() {
    let first = decide(1, Err(status_error("transcription", 429)), 10_000_000_000);
    assert!(matches!(first, RetryDecision::RetryAfter { wait_ns } if wait_ns == FIRST_RETRY_BACKOFF_NS));
    let second = decide(2, Ok("recovered".to_string()), 9_000);
    assert!(matches!(second, RetryDecision::Done(Ok(ref t)) if t == "recovered"));
}

#[test]
fn service_unavailable_is_not_replayed() {
    let d = decide(1, Err(status_error("transcription", 503)), 3_000);
    match d {
        RetryDecision::Done(Err(m)) => {
            assert!(m.contains("503"));
            assert!(!m.contains("PRIVATE PROVIDER DETAIL"));
        }
        _ => panic!("a 503 was retried"),
    }
}

#[test]
fn client_errors_and_malformed_success_are_not_retried() {
    assert!(matches!(
        decide(1, Err(status_error("transcription", 401)), 3_000),
        RetryDecision::Done(Err(_))
    ));
    let malformed = transcription_text(None).unwrap_err();
    assert!(matches!(decide(1, Err(malformed), 3_000), RetryDecision::Done(Err(_))));
}

#[test]
fn retries_stop_after_the_last_attempt_and_at_the_deadline() {
    let refused = || UploadError::retryable("refused".to_string());
    let second = decide(2, Err(refused()), 10_000_000_000);
    assert!(matches!(second, RetryDecision::RetryAfter { wait_ns } if wait_ns == SECOND_RETRY_BACKOFF_NS));
    let last = decide(MAX_TRANSCRIPTION_ATTEMPTS, Err(refused()), 10_000_000_000);
    assert!(matches!(last, RetryDecision::Done(Err(ref m)) if m == "refused"));
    let spent = decide(1, Err(refused()), 0);
    assert!(matches!(spent, RetryDecision::Done(Err(_))));
    let clamped = decide(2, Err(refused()), 300_000_000);
    assert!(matches!(clamped, RetryDecision::RetryAfter { wait_ns: 300_000_000 }));
    let last_nanosecond = decide(1, Err(refused()), 1);
    assert!(matches!(last_nanosecond, RetryDecision::RetryAfter { wait_ns: 1 }));
}
