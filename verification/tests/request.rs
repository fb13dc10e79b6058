use asn_lookup::pipeline::{ClientError, Failure};
use asn_lookup::request::{bypass_requested, error_reply};

#[test]
fn only_true_and_one_bypass_the_cache() {
    assert!(bypass_requested(Some("true")));
    assert!(bypass_requested(Some("1")));
    assert!(!bypass_requested(Some("false")));
    assert!(!bypass_requested(Some("0")));
    assert!(!bypass_requested(Some("TRUE")));
    assert!(!bypass_requested(Some("yes")));
    assert!(!bypass_requested(Some("")));
    assert!(!bypass_requested(Some("11")));
    assert!(!bypass_requested(None));
}

#[test]
fn error_reply_carries_the_failure_text() {
    let e = Failure::Client(ClientError::Other { message: "Invalid query".to_string() });
    assert_eq!(error_reply(&e), "Error: Invalid query");
    let e = Failure::Client(ClientError::Transport {
        status: Some(404),
        message: "HTTP status client error (404 Not Found)".to_string(),
    });
    assert_eq!(error_reply(&e), "Error: HTTP status client error (404 Not Found)");
    let e = Failure::CacheWrite("permission denied".to_string());
    assert_eq!(error_reply(&e), "Error: permission denied");
    assert_eq!(error_reply(&Failure::UnsafeKey), "Error: the key cannot name a cache file");
    assert_eq!(
        error_reply(&Failure::Unexpected),
        "Error: the request received an event out of turn"
    );
}
