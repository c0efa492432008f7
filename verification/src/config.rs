//! Configuration values and the wrapper that keeps secrets out of logs.
//!
//! Reading the environment is left to the caller. What is decided here is
//! which value stands where a setting is absent and which absence is an
//! error.

use vstd::prelude::*;
use crate::error::ScrybeError;

verus! {

/// Settings of a service.
#[derive(Debug, Clone)]
pub struct Config {
    /// Address to listen on.
    pub host: String,
    /// Port to listen on.
    pub port: u16,
    /// Most connections served at once.
    pub max_connections: usize,
    /// Whether TLS is on.
    pub enable_tls: bool,
    /// Seconds after which a request is given up.
    pub request_timeout_secs: u64,
}

impl Config {
    /// The settings that stand where each is given, and the defaults where
    /// not: host `127.0.0.1`, port 8080, 10000 connections, TLS on, a
    /// timeout of 30 seconds.
    pub fn from_values(
        host: Option<String>,
        port: Option<u16>,
        max_connections: Option<usize>,
        enable_tls: Option<bool>,
        request_timeout_secs: Option<u64>,
    ) -> (config: Config)
        ensures
            config.host@ == (match host {
                Some(h) => h@,
                None => "127.0.0.1"@,
            }),
            config.port == (match port {
                Some(p) => p,
                None => 8080,
            }),
            config.max_connections == (match max_connections {
                Some(m) => m,
                None => 10000,
            }),
            config.enable_tls == (match enable_tls {
                Some(t) => t,
                None => true,
            }),
            config.request_timeout_secs == (match request_timeout_secs {
                Some(t) => t,
                None => 30,
            }),
    {
        Config {
            host: match host {
                Some(h) => h,
                None => "127.0.0.1".to_owned(),
            },
            port: match port {
                Some(p) => p,
                None => 8080,
            },
            max_connections: match max_connections {
                Some(m) => m,
                None => 10000,
            },
            enable_tls: match enable_tls {
                Some(t) => t,
                None => true,
            },
            request_timeout_secs: match request_timeout_secs {
                Some(t) => t,
                None => 30,
            },
        }
    }

    /// Settings for tests: the defaults, but with 1000 connections and
    /// without TLS.
    pub fn test_default() -> (config: Config)
        ensures
            config.host@ == "127.0.0.1"@,
            config.port == 8080,
            config.max_connections == 1000,
            !config.enable_tls,
            config.request_timeout_secs == 30,
    {
        Config {
            host: "127.0.0.1".to_owned(),
            port: 8080,
            max_connections: 1000,
            enable_tls: false,
            request_timeout_secs: 30,
        }
    }
}

/// A value that must not show up in logs. It renders as `[REDACTED]`, and
/// is read only through `expose` or `into_inner`, so that every use of a
/// secret is explicit.
#[derive(Clone)]
pub struct Secret<T>(T);

impl<T> Secret<T> {
    /// The value inside.
    pub closed spec fn value(&self) -> T {
        self.0
    }

    /// Wraps a value.
    pub fn new(value: T) -> (secret: Secret<T>)
        ensures
            secret.value() == value,
    {
        Secret(value)
    }

    /// The value inside. Never log what this returns.
    pub fn expose(&self) -> (value: &T)
        ensures
            *value == self.value(),
    {
        &self.0
    }

    /// Unwraps the value.
    pub fn into_inner(self) -> (value: T)
        ensures
            value == self.value(),
    {
        self.0
    }

    /// The text that stands for the secret wherever it is printed; it is
    /// the same for every secret.
    pub fn to_string(&self) -> (text: String)
        ensures
            text@ == "[REDACTED]"@,
    {
        "[REDACTED]".to_owned()
    }
}

/// Settings that are secrets: credentials, keys and where keys lie.
#[derive(Clone)]
pub struct SecretConfig {
    /// ClickHouse connection URL.
    pub clickhouse_url: Secret<String>,
    /// ClickHouse password.
    pub clickhouse_password: Secret<String>,
    /// Redis connection URL.
    pub redis_url: Secret<String>,
    /// Salt for API keys.
    pub api_key_salt: Secret<String>,
    /// Path of the TLS private key.
    pub tls_key_path: Secret<String>,
}

/// Whether `result` is the configuration error with the message `message`.
pub open spec fn is_config_error(result: Result<SecretConfig, ScrybeError>, message: Seq<char>) -> bool {
    result matches Err(ScrybeError::ConfigError(m)) && m@ == message
}

impl SecretConfig {
    /// The secrets, where all five are given. Where one is absent the
    /// result is a configuration error that names the first absent one, in
    /// the order of the parameters.
    pub fn from_values(
        clickhouse_url: Option<String>,
        clickhouse_password: Option<String>,
        redis_url: Option<String>,
        api_key_salt: Option<String>,
        tls_key_path: Option<String>,
    ) -> (result: Result<SecretConfig, ScrybeError>)
        ensures
            result is Ok <==> clickhouse_url is Some && clickhouse_password is Some && redis_url
                is Some && api_key_salt is Some && tls_key_path is Some,
            result matches Ok(config) ==> config.clickhouse_url.value() == clickhouse_url->0
                && config.clickhouse_password.value() == clickhouse_password->0
                && config.redis_url.value() == redis_url->0 && config.api_key_salt.value()
                == api_key_salt->0 && config.tls_key_path.value() == tls_key_path->0,
            clickhouse_url is None ==> is_config_error(result, "Missing CLICKHOUSE_URL"@),
            clickhouse_url is Some && clickhouse_password is None ==> is_config_error(
                result,
                "Missing CLICKHOUSE_PASSWORD"@,
            ),
            clickhouse_url is Some && clickhouse_password is Some && redis_url is None
                ==> is_config_error(result, "Missing REDIS_URL"@),
            clickhouse_url is Some && clickhouse_password is Some && redis_url is Some
                && api_key_salt is None ==> is_config_error(result, "Missing API_KEY_SALT"@),
            clickhouse_url is Some && clickhouse_password is Some && redis_url is Some
                && api_key_salt is Some && tls_key_path is None ==> is_config_error(
                result,
                "Missing TLS_KEY_PATH"@,
            ),
    {
        let clickhouse_url = match clickhouse_url {
            Some(value) => value,
            None => {
                return Err(ScrybeError::config_error("Missing CLICKHOUSE_URL"));
            },
        };
        let clickhouse_password = match clickhouse_password {
            Some(value) => value,
            None => {
                return Err(ScrybeError::config_error("Missing CLICKHOUSE_PASSWORD"));
            },
        };
        let redis_url = match redis_url {
            Some(value) => value,
            None => {
                return Err(ScrybeError::config_error("Missing REDIS_URL"));
            },
        };
        let api_key_salt = match api_key_salt {
            Some(value) => value,
            None => {
                return Err(ScrybeError::config_error("Missing API_KEY_SALT"));
            },
        };
        let tls_key_path = match tls_key_path {
            Some(value) => value,
            None => {
                return Err(ScrybeError::config_error("Missing TLS_KEY_PATH"));
            },
        };
        Ok(
            SecretConfig {
                clickhouse_url: Secret::new(clickhouse_url),
                clickhouse_password: Secret::new(clickhouse_password),
                redis_url: Secret::new(redis_url),
                api_key_salt: Secret::new(api_key_salt),
                tls_key_path: Secret::new(tls_key_path),
            },
        )
    }

    /// Secrets for tests: made-up values that open nothing.
    pub fn test_default() -> (config: SecretConfig)
        ensures
            config.clickhouse_url.value()@ == "http://localhost:8123"@,
            config.clickhouse_password.value()@ == "test_password"@,
            config.redis_url.value()@ == "redis://localhost:6379"@,
            config.api_key_salt.value()@ == "test_salt_12345678901234567890123456789012"@,
            config.tls_key_path.value()@ == "/tmp/test-key.pem"@,
    {
        SecretConfig {
            clickhouse_url: Secret::new("http://localhost:8123".to_owned()),
            clickhouse_password: Secret::new("test_password".to_owned()),
            redis_url: Secret::new("redis://localhost:6379".to_owned()),
            api_key_salt: Secret::new("test_salt_12345678901234567890123456789012".to_owned()),
            tls_key_path: Secret::new("/tmp/test-key.pem".to_owned()),
        }
    }

    /// The text that stands for the secrets wherever they are printed: the
    /// names of the fields, each with `[REDACTED]` for its value. It is the
    /// same whatever the secrets are.
    pub fn debug_string(&self) -> (text: String)
        ensures
            text@
                == "SecretConfig { clickhouse_url: [REDACTED], clickhouse_password: [REDACTED], redis_url: [REDACTED], api_key_salt: [REDACTED], tls_key_path: [REDACTED] }"@,
    {
        "SecretConfig { clickhouse_url: [REDACTED], clickhouse_password: [REDACTED], redis_url: [REDACTED], api_key_salt: [REDACTED], tls_key_path: [REDACTED] }".to_owned()
    }
}

} // verus!
