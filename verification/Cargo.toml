[package]
name = "scrybe"
version = "0.1.0"
edition = "2021"
publish = false

[dependencies]
sha2 = "=0.10.9"
blake3 = { version = "=1.8.7", features = ["pure"] }
hmac = "=0.12.1"
hex = "=0.4.3"
subtle = "=2.6.1"
chrono = { version = "=0.4.45", features = ["serde"] }
uuid = { version = "=1.29.0", features = ["v4", "serde"] }
serde = { version = "=1.0.229", features = ["derive"] }
serde_json = "=1.0.154"
thiserror = "=1.0.69"
http = "=1.5.0"
axum = "=0.7.9"
tokio = { version = "=1.54.1", features = ["full"] }
tower-http = { version = "=0.5.2", features = ["trace"] }
tracing = "=0.1.44"
tracing-subscriber = { version = "=0.3.23", features = ["env-filter"] }
governor = "=0.6.3"
redis = { version = "=0.24.1", features = ["tokio-comp"] }
deadpool-redis = "=0.14.0"
clickhouse = { version = "=0.11.6", default-features = false }
