use scrybe::error::ScrybeError;
use scrybe::ingest::AppError;

#[test]
fn test_invalid_session_error() {
    let err = ScrybeError::invalid_session("user_agent", "empty string");
    assert!(err.to_string().contains("user_agent"));
    assert!(err.to_string().contains("empty string"));
}

#[test]
fn test_rate_limit_error() {
    let err = ScrybeError::rate_limit(100, "minute");
    assert!(err.to_string().contains("100"));
    assert!(err.to_string().contains("minute"));
}

#[test]
fn test_validation_error_context() {
    let err = ScrybeError::validation_error("screen_width", "positive integer", "0");
    let err_string = err.to_string();
    assert!(err_string.contains("screen_width"));
    assert!(err_string.contains("positive integer"));
    assert!(err_string.contains("0"));
}

#[test]
fn test_all_error_variants_have_display() {
    let errors = vec![
        ScrybeError::invalid_session("field", "reason"),
        ScrybeError::config_error("test"),
        ScrybeError::storage_error("write", "timeout"),
        ScrybeError::cache_error("get", "not found"),
        ScrybeError::enrichment_error("fingerprint", "invalid data"),
        ScrybeError::rate_limit(100, "second"),
        ScrybeError::authentication_error("invalid token"),
        ScrybeError::validation_error("field", "expected", "actual"),
        ScrybeError::io_error("read", "permission denied"),
    ];

    for err in errors {
        // Ensure all variants render as text and as debug output
        let _ = err.to_string();
        let _ = format!("{:?}", err);
        assert!(!err.to_string().is_empty());
    }
}

#[test]
fn error_text_is_exact() {
    assert_eq!(
        ScrybeError::invalid_session("user_agent", "empty string").to_string(),
        "Invalid session data: field='user_agent', reason='empty string'"
    );
    assert_eq!(ScrybeError::config_error("test").to_string(), "Configuration error: test");
    assert_eq!(
        ScrybeError::storage_error("write", "timeout").to_string(),
        "Storage error: operation='write', reason='timeout'"
    );
    assert_eq!(
        ScrybeError::cache_error("get", "not found").to_string(),
        "Cache error: operation='get', reason='not found'"
    );
    assert_eq!(
        ScrybeError::enrichment_error("fingerprint", "invalid data").to_string(),
        "Enrichment failed: stage='fingerprint', reason='invalid data'"
    );
    assert_eq!(
        ScrybeError::rate_limit(100, "second").to_string(),
        "Rate limit exceeded: limit=100 requests/second"
    );
    assert_eq!(
        ScrybeError::authentication_error("invalid token").to_string(),
        "Authentication failed: invalid token"
    );
    assert_eq!(
        ScrybeError::validation_error("field", "expected", "actual").to_string(),
        "Validation error: field='field', expected='expected', actual='actual'"
    );
    assert_eq!(
        ScrybeError::io_error("read", "permission denied").to_string(),
        "I/O error: operation='read', reason='permission denied'"
    );
}

#[test]
fn rate_limit_text_writes_the_limit_in_decimal() {
    assert_eq!(ScrybeError::rate_limit(0, "hour").to_string(), "Rate limit exceeded: limit=0 requests/hour");
    assert_eq!(
        ScrybeError::rate_limit(4294967295, "hour").to_string(),
        "Rate limit exceeded: limit=4294967295 requests/hour"
    );
    assert_eq!(ScrybeError::rate_limit(7, "m").to_string(), "Rate limit exceeded: limit=7 requests/m");
}

#[test]
fn constructors_fill_the_fields() {
    match ScrybeError::validation_error("f", "e", "a") {
        ScrybeError::ValidationError { field, expected, actual } => {
            assert_eq!(field, "f");
            assert_eq!(expected, "e");
            assert_eq!(actual, "a");
        }
        _ => panic!("wrong variant"),
    }
    match ScrybeError::rate_limit(3, "minute") {
        ScrybeError::RateLimit { limit, window } => {
            assert_eq!(limit, 3);
            assert_eq!(window, "minute");
        }
        _ => panic!("wrong variant"),
    }
}

#[test]
fn app_error_status_and_message() {
    let cases = vec![
        (ScrybeError::invalid_session("f", "r"), 400u16, "Invalid session data: field='f', reason='r'"),
        (
            ScrybeError::validation_error("f", "e", "a"),
            400,
            "Validation error: field='f', expected='e', actual='a'",
        ),
        (ScrybeError::authentication_error("bad token"), 401, "Authentication failed"),
        (ScrybeError::rate_limit(100, "minute"), 429, "Rate limit exceeded: limit=100 requests/minute"),
        (ScrybeError::config_error("c"), 500, "Internal server error"),
        (ScrybeError::storage_error("o", "r"), 500, "Internal server error"),
        (ScrybeError::cache_error("o", "r"), 500, "Internal server error"),
        (ScrybeError::enrichment_error("s", "r"), 500, "Internal server error"),
        (ScrybeError::io_error("o", "r"), 500, "Internal server error"),
    ];
    for (err, status, message) in cases {
        let app = AppError::from(err);
        assert_eq!(app.status_code(), status);
        assert_eq!(app.message(), message);
    }
}

#[test]
fn app_error_hides_authentication_detail() {
    let app = AppError::from(ScrybeError::authentication_error("signature mismatch for key 7"));
    assert!(!app.message().contains("signature mismatch"));
}
