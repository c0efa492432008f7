//! The cryptographic primitives, called from the crates that implement them.
//!
//! Each digest is a function of its input bytes. What it computes is named
//! here, not restated; the contracts of the callers speak of these names.

use vstd::prelude::*;
use crate::encoding::hex_lower;

verus! {

/// Number of bytes in a SHA-256, BLAKE3 or HMAC-SHA256 output.
pub const DIGEST_LEN: usize = 32;

/// The SHA-256 digest of a byte string.
pub uninterp spec fn sha256(data: Seq<u8>) -> Seq<u8>;

/// The BLAKE3 hash (default 32-byte output) of a byte string.
pub uninterp spec fn blake3(data: Seq<u8>) -> Seq<u8>;

/// The HMAC-SHA256 authentication code of a message under a key.
pub uninterp spec fn hmac_sha256(key: Seq<u8>, message: Seq<u8>) -> Seq<u8>;

/// Declares `hmac::digest::InvalidLength`, the error for a key of a length
/// that a MAC does not take. Nothing is known of its values.
#[verifier::external_type_specification]
#[verifier::external_body]
pub struct ExInvalidLength(hmac::digest::InvalidLength);

/// Calls `sha2::Sha256::digest`. Trusted: the result is the SHA-256 digest
/// of `data`, which is 32 bytes long.
#[verifier::external_body]
pub(crate) fn sha256_digest(data: &[u8]) -> (out: Vec<u8>)
    ensures
        out@ == sha256(data@),
        out@.len() == DIGEST_LEN,
{
    <sha2::Sha256 as sha2::Digest>::digest(data).to_vec()
}

/// Calls `blake3::hash`. Trusted: the result is the BLAKE3 hash of `data`,
/// which is 32 bytes long.
#[verifier::external_body]
pub(crate) fn blake3_digest(data: &[u8]) -> (out: Vec<u8>)
    ensures
        out@ == blake3(data@),
        out@.len() == DIGEST_LEN,
{
    blake3::hash(data).as_bytes().to_vec()
}

/// Keys `hmac::Hmac<sha2::Sha256>` with `new_from_slice`, feeds it `message`
/// and finalizes. Trusted: HMAC takes a key of any length, so the result is
/// `Ok`, and it holds the 32-byte HMAC-SHA256 code of `message` under `key`.
#[verifier::external_body]
pub(crate) fn hmac_sha256_code(key: &[u8], message: &[u8]) -> (out: Result<
    Vec<u8>,
    hmac::digest::InvalidLength,
>)
    ensures
        out is Ok,
        out->Ok_0@ == hmac_sha256(key@, message@),
        out->Ok_0@.len() == DIGEST_LEN,
{
    let mut mac = <hmac::Hmac<sha2::Sha256> as hmac::Mac>::new_from_slice(key)?;
    hmac::Mac::update(&mut mac, message);
    Ok(hmac::Mac::finalize(mac).into_bytes().to_vec())
}

/// Calls `hex::encode`. Trusted: the result is the lower-case hexadecimal
/// text of `data`, two digits per byte.
#[verifier::external_body]
pub(crate) fn hex_encode(data: &[u8]) -> (out: String)
    ensures
        out@ == hex_lower(data@),
{
    hex::encode(data)
}

/// Calls `subtle::ConstantTimeEq::ct_eq` on two byte slices. Trusted: the
/// result says whether the slices are equal. The comparison takes time that
/// depends on the lengths only.
#[verifier::external_body]
pub(crate) fn constant_time_eq(a: &[u8], b: &[u8]) -> (same: bool)
    ensures
        same == (a@ == b@),
{
    bool::from(subtle::ConstantTimeEq::ct_eq(a, b))
}

} // verus!
