use model_bridge::client::{hint, Failure};
use model_bridge::transport::diagnose;

#[test]
fn error_without_timeout_or_connection_is_other() {
    let e = reqwest::Client::new().get("no address").build().unwrap_err();
    assert!(!e.is_timeout() && !e.is_connect() && !e.is_status());
    assert_eq!(diagnose(&e), Failure::Other);
    assert_eq!(hint(diagnose(&e)), None);
}
