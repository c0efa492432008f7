//! Privacy safeguards: salted hashing of addresses and a screen for
//! personal data.

use vstd::prelude::*;
use crate::digest::{hex_encode, sha256, sha256_digest};
use crate::encoding::{
    append_bytes,
    append_text,
    hex_lower,
    is_hex_digest,
    lemma_hex_lower_shape,
    text_bytes,
};
use crate::error::ScrybeError;
use crate::text::{ascii_numeric_are_digits, contains_char, count_numeric, numeric_count};

verus! {

/// Fewest numeric characters that are taken for a phone number.
pub const PHONE_DIGITS: usize = 10;

/// Consent of a data subject.
#[derive(Debug, Clone, Copy, PartialEq, Eq)]
pub enum ConsentStatus {
    /// Consent was given explicitly.
    Given,
    /// Consent was not given.
    NotGiven,
    /// Consent was given and later withdrawn.
    Withdrawn,
}

/// Rights of a data subject.
#[derive(Debug, Clone, Copy, PartialEq, Eq)]
pub enum DataSubjectRight {
    /// Right of access.
    Access,
    /// Right to rectification.
    Rectification,
    /// Right to erasure.
    Erasure,
    /// Right to restriction of processing.
    Restriction,
    /// Right to data portability.
    Portability,
    /// Right to object.
    Objection,
}

/// The salted hash of an address: SHA-256 over the address text followed by
/// the salt, in lower-case hexadecimal.
pub open spec fn ip_hash(ip: Seq<char>, salt: Seq<u8>) -> Seq<char> {
    hex_lower(sha256(text_bytes(ip) + salt))
}

/// Whether a text may hold an e-mail address: it has an `@` and a `.`.
pub open spec fn looks_like_email(data: Seq<char>) -> bool {
    data.contains('@') && data.contains('.')
}

/// Whether a text may hold a phone number: ten or more numeric characters.
pub open spec fn looks_like_phone(data: Seq<char>) -> bool {
    numeric_count(data) >= PHONE_DIGITS
}

/// Whether `err` is the validation error raised for personal data, with the
/// given finding.
pub open spec fn is_pii_error(err: ScrybeError, finding: Seq<char>) -> bool {
    err matches ScrybeError::ValidationError { field, expected, actual } && field@ == "data"@
        && expected@ == "no PII"@ && actual@ == finding
}

/// Hashes an address with a salt, so that it is never stored in the clear.
/// The result is 64 lower-case hexadecimal characters.
pub fn hash_ip(ip: &str, salt: &[u8]) -> (hash: String)
    ensures
        hash@ == ip_hash(ip@, salt@),
        is_hex_digest(hash@),
{
    let mut input: Vec<u8> = Vec::new();
    append_text(&mut input, ip);
    append_bytes(&mut input, salt);
    let digest = sha256_digest(input.as_slice());
    proof {
        lemma_hex_lower_shape(digest@);
    }
    hex_encode(digest.as_slice())
}

/// Screens a text for personal data. A text with both `@` and `.` is
/// refused as a possible e-mail address; failing that, one with ten or more
/// numeric characters is refused as a possible phone number. Numeric are
/// the digits `0` to `9` and the numbers of other scripts.
pub fn validate_no_pii(data: &str) -> (result: Result<(), ScrybeError>)
    ensures
        ascii_numeric_are_digits(data@),
        result is Ok <==> !looks_like_email(data@) && !looks_like_phone(data@),
        looks_like_email(data@) ==> result is Err && is_pii_error(
            result->Err_0,
            "potential email address detected"@,
        ),
        !looks_like_email(data@) && looks_like_phone(data@) ==> result is Err && is_pii_error(
            result->Err_0,
            "potential phone number detected"@,
        ),
{
    let digit_count: usize = count_numeric(data);
    if contains_char(data, '@') && contains_char(data, '.') {
        return Err(
            ScrybeError::validation_error("data", "no PII", "potential email address detected"),
        );
    }
    if digit_count >= PHONE_DIGITS {
        return Err(
            ScrybeError::validation_error("data", "no PII", "potential phone number detected"),
        );
    }
    Ok(())
}

} // verus!
