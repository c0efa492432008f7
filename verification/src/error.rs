//! The error type shared by all operations.
//!
//! Errors are built explicitly, each with the context of what went wrong,
//! and render to one line of text.

use vstd::prelude::*;
use crate::text::{decimal_digits, decimal_text};

verus! {

/// An error of any operation of the system.
#[derive(Debug)]
pub enum ScrybeError {
    /// Session data was invalid.
    InvalidSession {
        /// The field that failed validation.
        field: String,
        /// Why it failed.
        reason: String,
    },
    /// Configuration was missing or malformed.
    ConfigError(String),
    /// A storage operation failed.
    StorageError {
        /// The operation that failed.
        operation: String,
        /// Why it failed.
        reason: String,
    },
    /// A cache operation failed.
    CacheError {
        /// The operation that failed.
        operation: String,
        /// Why it failed.
        reason: String,
    },
    /// The enrichment pipeline failed.
    EnrichmentError {
        /// The stage that failed.
        stage: String,
        /// Why it failed.
        reason: String,
    },
    /// A rate limit was exceeded.
    RateLimit {
        /// The limit that was exceeded.
        limit: u32,
        /// The window it applies to, such as "minute".
        window: String,
    },
    /// Authentication failed.
    AuthenticationError {
        /// Why it failed.
        reason: String,
    },
    /// A value failed validation.
    ValidationError {
        /// The field that failed validation.
        field: String,
        /// What was expected.
        expected: String,
        /// What was provided.
        actual: String,
    },
    /// An I/O operation failed.
    IoError {
        /// The operation that failed.
        operation: String,
        /// Why it failed.
        reason: String,
    },
}

/// A label, then two quoted values under their names.
pub open spec fn two_part_text(
    head: Seq<char>,
    first: Seq<char>,
    middle: Seq<char>,
    second: Seq<char>,
) -> Seq<char> {
    head + first + middle + second + "'"@
}

impl ScrybeError {
    /// The line of text that describes the error.
    pub open spec fn text(&self) -> Seq<char> {
        match self {
            ScrybeError::InvalidSession { field, reason } => two_part_text(
                "Invalid session data: field='"@,
                field@,
                "', reason='"@,
                reason@,
            ),
            ScrybeError::ConfigError(message) => "Configuration error: "@ + message@,
            ScrybeError::StorageError { operation, reason } => two_part_text(
                "Storage error: operation='"@,
                operation@,
                "', reason='"@,
                reason@,
            ),
            ScrybeError::CacheError { operation, reason } => two_part_text(
                "Cache error: operation='"@,
                operation@,
                "', reason='"@,
                reason@,
            ),
            ScrybeError::EnrichmentError { stage, reason } => two_part_text(
                "Enrichment failed: stage='"@,
                stage@,
                "', reason='"@,
                reason@,
            ),
            ScrybeError::RateLimit { limit, window } => "Rate limit exceeded: limit="@
                + decimal_digits(*limit as nat) + " requests/"@ + window@,
            ScrybeError::AuthenticationError { reason } => "Authentication failed: "@ + reason@,
            ScrybeError::ValidationError { field, expected, actual } => two_part_text(
                "Validation error: field='"@,
                field@,
                "', expected='"@,
                expected@,
            ) + ", actual='"@ + actual@ + "'"@,
            ScrybeError::IoError { operation, reason } => two_part_text(
                "I/O error: operation='"@,
                operation@,
                "', reason='"@,
                reason@,
            ),
        }
    }

    /// An invalid-session error for `field`.
    pub fn invalid_session(field: &str, reason: &str) -> (err: ScrybeError)
        ensures
            err matches ScrybeError::InvalidSession { field: f, reason: r } && f@ == field@ && r@
                == reason@,
    {
        ScrybeError::InvalidSession { field: field.to_owned(), reason: reason.to_owned() }
    }

    /// A configuration error.
    pub fn config_error(message: &str) -> (err: ScrybeError)
        ensures
            err matches ScrybeError::ConfigError(m) && m@ == message@,
    {
        ScrybeError::ConfigError(message.to_owned())
    }

    /// A storage error for `operation`.
    pub fn storage_error(operation: &str, reason: &str) -> (err: ScrybeError)
        ensures
            err matches ScrybeError::StorageError { operation: o, reason: r } && o@ == operation@
                && r@ == reason@,
    {
        ScrybeError::StorageError { operation: operation.to_owned(), reason: reason.to_owned() }
    }

    /// A cache error for `operation`.
    pub fn cache_error(operation: &str, reason: &str) -> (err: ScrybeError)
        ensures
            err matches ScrybeError::CacheError { operation: o, reason: r } && o@ == operation@
                && r@ == reason@,
    {
        ScrybeError::CacheError { operation: operation.to_owned(), reason: reason.to_owned() }
    }

    /// An enrichment error for `stage`.
    pub fn enrichment_error(stage: &str, reason: &str) -> (err: ScrybeError)
        ensures
            err matches ScrybeError::EnrichmentError { stage: s, reason: r } && s@ == stage@ && r@
                == reason@,
    {
        ScrybeError::EnrichmentError { stage: stage.to_owned(), reason: reason.to_owned() }
    }

    /// A rate-limit error for `limit` requests per `window`.
    pub fn rate_limit(limit: u32, window: &str) -> (err: ScrybeError)
        ensures
            err matches ScrybeError::RateLimit { limit: l, window: w } && l == limit && w@
                == window@,
    {
        ScrybeError::RateLimit { limit, window: window.to_owned() }
    }

    /// An authentication error.
    pub fn authentication_error(reason: &str) -> (err: ScrybeError)
        ensures
            err matches ScrybeError::AuthenticationError { reason: r } && r@ == reason@,
    {
        ScrybeError::AuthenticationError { reason: reason.to_owned() }
    }

    /// A validation error for `field`.
    pub fn validation_error(field: &str, expected: &str, actual: &str) -> (err: ScrybeError)
        ensures
            err matches ScrybeError::ValidationError { field: f, expected: e, actual: a } && f@
                == field@ && e@ == expected@ && a@ == actual@,
    {
        ScrybeError::ValidationError {
            field: field.to_owned(),
            expected: expected.to_owned(),
            actual: actual.to_owned(),
        }
    }

    /// An I/O error for `operation`.
    pub fn io_error(operation: &str, reason: &str) -> (err: ScrybeError)
        ensures
            err matches ScrybeError::IoError { operation: o, reason: r } && o@ == operation@ && r@
                == reason@,
    {
        ScrybeError::IoError { operation: operation.to_owned(), reason: reason.to_owned() }
    }

    /// Renders the error as one line of text.
    pub fn to_string(&self) -> (line: String)
        ensures
            line@ == self.text(),
    {
        match self {
            ScrybeError::InvalidSession { field, reason } => two_part(
                "Invalid session data: field='",
                field.as_str(),
                "', reason='",
                reason.as_str(),
            ),
            ScrybeError::ConfigError(message) => "Configuration error: ".to_owned().concat(
                message.as_str(),
            ),
            ScrybeError::StorageError { operation, reason } => two_part(
                "Storage error: operation='",
                operation.as_str(),
                "', reason='",
                reason.as_str(),
            ),
            ScrybeError::CacheError { operation, reason } => two_part(
                "Cache error: operation='",
                operation.as_str(),
                "', reason='",
                reason.as_str(),
            ),
            ScrybeError::EnrichmentError { stage, reason } => two_part(
                "Enrichment failed: stage='",
                stage.as_str(),
                "', reason='",
                reason.as_str(),
            ),
            ScrybeError::RateLimit { limit, window } => {
                let digits = decimal_text(*limit as u64);
                "Rate limit exceeded: limit=".to_owned().concat(digits.as_str()).concat(
                    " requests/",
                ).concat(window.as_str())
            },
            ScrybeError::AuthenticationError { reason } => "Authentication failed: ".to_owned().concat(
                reason.as_str(),
            ),
            ScrybeError::ValidationError { field, expected, actual } => two_part(
                "Validation error: field='",
                field.as_str(),
                "', expected='",
                expected.as_str(),
            ).concat(", actual='").concat(actual.as_str()).concat("'"),
            ScrybeError::IoError { operation, reason } => two_part(
                "I/O error: operation='",
                operation.as_str(),
                "', reason='",
                reason.as_str(),
            ),
        }
    }
}

/// Builds the text of an error with two named parts.
fn two_part(head: &str, first: &str, middle: &str, second: &str) -> (line: String)
    ensures
        line@ == two_part_text(head@, first@, middle@, second@),
{
    head.to_owned().concat(first).concat(middle).concat(second).concat("'")
}

} // verus!
