//! Scrybe: the decision core of a browser-telemetry gateway.
//!
//! Three subsystems decide, per request, whether telemetry may be trusted:
//! request authentication (signature, freshness, single-use nonce),
//! admission control (per-identity rate limiting), and deterministic
//! fingerprint synthesis with a confidence score.
//!
//! The functions are verified with Verus against the contracts in their
//! signatures. The digests, the constant-time comparison and a few
//! conversions of the standard library are called, not verified: each call
//! stands in a small function of its own whose contract says what is taken
//! on trust.

pub mod auth;
pub mod config;
pub mod digest;
pub mod encoding;
pub mod error;
pub mod fingerprint;
pub mod headers;
pub mod ingest;
pub mod nonce;
pub mod privacy;
pub mod rate_limit;
pub mod session_cache;
pub mod table;
pub mod text;
pub mod types;

pub use auth::{AuthError, AuthenticationValidator};
pub use config::{Config, Secret, SecretConfig};
pub use error::ScrybeError;
pub use fingerprint::FingerprintGenerator;
pub use nonce::{NonceStatus, NonceStore, NonceValidator};
pub use rate_limit::{Admission, RateLimitStore, RateLimiter};
