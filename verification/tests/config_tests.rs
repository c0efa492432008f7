use scrybe::config::{Config, Secret, SecretConfig};
use scrybe::error::ScrybeError;

#[test]
fn test_config_defaults() {
    let config = Config::test_default();
    assert_eq!(config.host, "127.0.0.1");
    assert_eq!(config.port, 8080);
    assert!(config.max_connections > 0);
}

#[test]
fn test_secret_redaction() {
    let secret = Secret::new("sensitive_data".to_string());
    let debug_output = secret.to_string();
    let display_output = secret.to_string();

    assert_eq!(debug_output, "[REDACTED]");
    assert_eq!(display_output, "[REDACTED]");
    assert!(!debug_output.contains("sensitive_data"));
    assert!(!display_output.contains("sensitive_data"));
}

#[test]
fn test_secret_expose() {
    let secret = Secret::new("my_secret".to_string());
    assert_eq!(secret.expose(), "my_secret");
}

#[test]
fn test_secret_into_inner() {
    let secret = Secret::new(42);
    assert_eq!(secret.into_inner(), 42);
}

#[test]
fn test_secret_config_debug_redaction() {
    let config = SecretConfig::test_default();
    let debug_output = config.debug_string();

    // Should contain field names but redact values
    assert!(debug_output.contains("SecretConfig"));
    assert!(debug_output.contains("[REDACTED]"));
    assert!(!debug_output.contains("test_password"));
    assert!(!debug_output.contains("test_salt"));
}

#[test]
fn secret_config_debug_names_every_field() {
    let text = SecretConfig::test_default().debug_string();
    assert_eq!(
        text,
        "SecretConfig { clickhouse_url: [REDACTED], clickhouse_password: [REDACTED], \
         redis_url: [REDACTED], api_key_salt: [REDACTED], tls_key_path: [REDACTED] }"
    );
}

#[test]
fn secret_clone_keeps_the_value() {
    let secret = Secret::new("k".to_string());
    let copy = secret.clone();
    assert_eq!(copy.expose(), "k");
    assert_eq!(secret.into_inner(), "k");
}

#[test]
fn config_from_values_applies_defaults() {
    let config = Config::from_values(None, None, None, None, None);
    assert_eq!(config.host, "127.0.0.1");
    assert_eq!(config.port, 8080);
    assert_eq!(config.max_connections, 10000);
    assert!(config.enable_tls);
    assert_eq!(config.request_timeout_secs, 30);
}

#[test]
fn config_from_values_keeps_what_is_given() {
    let config =
        Config::from_values(Some("0.0.0.0".to_string()), Some(9000), Some(5), Some(false), Some(7));
    assert_eq!(config.host, "0.0.0.0");
    assert_eq!(config.port, 9000);
    assert_eq!(config.max_connections, 5);
    assert!(!config.enable_tls);
    assert_eq!(config.request_timeout_secs, 7);
}

#[test]
fn secret_config_from_values_complete() {
    let config = SecretConfig::from_values(
        Some("http://ch".to_string()),
        Some("pw".to_string()),
        Some("redis://r".to_string()),
        Some("salt".to_string()),
        Some("/key.pem".to_string()),
    )
    .unwrap();
    assert_eq!(config.clickhouse_url.expose(), "http://ch");
    assert_eq!(config.clickhouse_password.expose(), "pw");
    assert_eq!(config.redis_url.expose(), "redis://r");
    assert_eq!(config.api_key_salt.expose(), "salt");
    assert_eq!(config.tls_key_path.expose(), "/key.pem");
}

#[test]
fn secret_config_from_values_names_first_missing() {
    let some = || Some("x".to_string());
    let cases: Vec<(Result<SecretConfig, ScrybeError>, &str)> = vec![
        (SecretConfig::from_values(None, None, None, None, None), "Missing CLICKHOUSE_URL"),
        (SecretConfig::from_values(some(), None, some(), some(), some()), "Missing CLICKHOUSE_PASSWORD"),
        (SecretConfig::from_values(some(), some(), None, None, some()), "Missing REDIS_URL"),
        (SecretConfig::from_values(some(), some(), some(), None, some()), "Missing API_KEY_SALT"),
        (SecretConfig::from_values(some(), some(), some(), some(), None), "Missing TLS_KEY_PATH"),
    ];
    for (result, expected) in cases {
        match result {
            Err(ScrybeError::ConfigError(msg)) => assert_eq!(msg, expected),
            _ => panic!("Expected ConfigError"),
        }
    }
}
