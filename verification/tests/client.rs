use model_bridge::client::{
    ask, classify, hint, report_failure, Config, Failure, Fault, CONNECTION_HINT,
    DEFAULT_MODEL, DEFAULT_TIMEOUT_SECS, ENDPOINT, TEMPERATURE_TENTHS, TIMEOUT_HINT,
};

#[test]
fn defaults_apply_without_settings() {
    let c = Config::from_settings(None, None, None);
    assert_eq!(c.timeout_secs, 600);
    assert_eq!(c.model, "qwen2.5-coder:14b");
    assert_eq!(c.pause_secs, None);
    assert_eq!(DEFAULT_TIMEOUT_SECS, 600);
    assert_eq!(DEFAULT_MODEL, "qwen2.5-coder:14b");
    assert_eq!(ENDPOINT, "http://127.0.0.1:11434/api/chat");
    assert_eq!(TEMPERATURE_TENTHS, 7);
}

#[test]
fn settings_override_defaults() {
    let c = Config::from_settings(Some("30"), Some("llama3"), Some("0"));
    assert_eq!(c.timeout_secs, 30);
    assert_eq!(c.model, "llama3");
    assert_eq!(c.pause_secs, Some(0));
}

#[test]
fn unreadable_seconds_leave_defaults() {
    let c = Config::from_settings(Some("soon"), Some(""), Some("-3"));
    assert_eq!(c.timeout_secs, 600);
    assert_eq!(c.model, "");
    assert_eq!(c.pause_secs, None);
    let d = Config::from_settings(Some(""), None, Some(" 4"));
    assert_eq!(d.timeout_secs, 600);
    assert_eq!(d.pause_secs, None);
}

#[test]
fn request_carries_instructions_and_settings() {
    let c = Config::from_settings(Some("45"), Some("m"), None);
    let r = ask("be brief", "build a cabin", &c);
    assert_eq!(r.model, "m");
    assert!(!r.stream);
    assert_eq!(r.temperature_tenths, 7);
    assert_eq!(r.timeout_secs, 45);
    assert_eq!(r.messages.len(), 2);
    assert_eq!(r.messages[0].role, "system");
    assert_eq!(r.messages[0].content, "be brief");
    assert_eq!(r.messages[1].role, "user");
    assert_eq!(r.messages[1].content, "build a cabin");
}

#[test]
fn request_with_default_settings() {
    let r = ask("", "", &Config::from_settings(None, None, None));
    assert_eq!(r.model, "qwen2.5-coder:14b");
    assert_eq!(r.timeout_secs, 600);
    assert_eq!(r.messages.len(), 2);
    assert_eq!(r.messages[0].content, "");
    assert_eq!(r.messages[1].content, "");
}

#[test]
fn faults_are_classified() {
    let f = |timed_out, unreachable, bad_status| Fault { timed_out, unreachable, bad_status };
    assert_eq!(classify(f(true, false, false)), Failure::Timeout);
    assert_eq!(classify(f(true, true, true)), Failure::Timeout);
    assert_eq!(classify(f(false, true, false)), Failure::Connection);
    assert_eq!(classify(f(false, true, true)), Failure::Connection);
    assert_eq!(classify(f(false, false, true)), Failure::Status);
    assert_eq!(classify(f(false, false, false)), Failure::Other);
}

#[test]
fn hints_tell_timeout_from_connection() {
    assert_eq!(hint(Failure::Timeout), Some(TIMEOUT_HINT));
    assert_eq!(hint(Failure::Connection), Some(CONNECTION_HINT));
    assert_eq!(hint(Failure::Status), None);
    assert_eq!(hint(Failure::Undecodable), None);
    assert_eq!(hint(Failure::Other), None);
    assert_ne!(TIMEOUT_HINT, CONNECTION_HINT);
    assert_eq!(
        TIMEOUT_HINT,
        "TIMEOUT: Consider increasing OLLAMA_TIMEOUT_SECS env var or using a smaller model"
    );
    assert_eq!(CONNECTION_HINT, "CONNECTION: Is Ollama running? Check: http://127.0.0.1:11434");
}

#[test]
fn failure_report_names_model_and_timeout() {
    let c = Config::from_settings(Some("90"), Some("tiny"), None);
    let r = ask("s", "u", &c);
    assert_eq!(
        report_failure("connection refused", &r),
        "Ollama request failed: connection refused (model: tiny, timeout: 90s)"
    );
}
