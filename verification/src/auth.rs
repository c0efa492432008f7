//! Request authentication: signature, freshness and single use.
//!
//! A request carries a timestamp, a nonce and a signature in three headers.
//! It is checked in a fixed order, cheapest check first, and the first
//! failure decides:
//!
//! 1. the three headers are present and readable;
//! 2. the timestamp lies within the freshness window of the current time,
//!    in either direction;
//! 3. the nonce is new: it is checked and marked as used in one step;
//! 4. the signature equals the HMAC-SHA256 of `timestamp:nonce:body` under
//!    the shared key, compared in constant time.
//!
//! The nonce is marked before the signature is verified, so a request with
//! a wrong signature still uses up its nonce. This is deliberate: verifying
//! first would tell an attacker, by timing, which nonces are in use.

use vstd::prelude::*;
use crate::digest::{constant_time_eq, hex_encode, hmac_sha256, hmac_sha256_code};
use crate::encoding::{
    append_bytes,
    append_text,
    hex_lower,
    is_hex_digest,
    lemma_hex_lower_shape,
    text_bytes,
};
use crate::error::ScrybeError;
use crate::headers::{find_header, header_text, header_value, readable, RawHeader};
use crate::nonce::{
    is_marked,
    marks_after,
    nonce_key,
    status_of,
    Marks,
    NonceStatus,
    NonceStore,
    NonceValidator,
    DEFAULT_NONCE_TTL_SECONDS,
};
use crate::text::{ascii_text, lemma_text_bytes_injective, parse_i64, parsed_i64};

verus! {

/// The freshness window where none is configured: five minutes, in
/// milliseconds.
pub const FRESHNESS_WINDOW_MS: i64 = 300000;

/// Why a request was not authenticated.
#[derive(Debug)]
pub enum AuthError {
    /// A required header is missing.
    MissingHeader(String),
    /// The timestamp is not a number.
    InvalidTimestamp,
    /// The signature does not match.
    InvalidSignature,
    /// The nonce store could not be asked.
    InvalidNonce,
    /// The nonce was used before.
    ReplayAttack,
    /// The timestamp lies outside the freshness window.
    TimestampExpired,
    /// The key was not accepted.
    InvalidKey,
    /// A required header is not readable text.
    InvalidHeader(String),
}

/// Mathematical view of an `AuthError`.
pub enum AuthErrorView {
    MissingHeader(Seq<char>),
    InvalidTimestamp,
    InvalidSignature,
    InvalidNonce,
    ReplayAttack,
    TimestampExpired,
    InvalidKey,
    InvalidHeader(Seq<char>),
}

impl View for AuthError {
    type V = AuthErrorView;

    open spec fn view(&self) -> AuthErrorView {
        match self {
            AuthError::MissingHeader(name) => AuthErrorView::MissingHeader(name@),
            AuthError::InvalidTimestamp => AuthErrorView::InvalidTimestamp,
            AuthError::InvalidSignature => AuthErrorView::InvalidSignature,
            AuthError::InvalidNonce => AuthErrorView::InvalidNonce,
            AuthError::ReplayAttack => AuthErrorView::ReplayAttack,
            AuthError::TimestampExpired => AuthErrorView::TimestampExpired,
            AuthError::InvalidKey => AuthErrorView::InvalidKey,
            AuthError::InvalidHeader(name) => AuthErrorView::InvalidHeader(name@),
        }
    }
}

/// The view of a decision: `Ok` for an accepted request, the reason for a
/// rejected one.
pub open spec fn decision_view(decision: Result<(), AuthError>) -> Result<(), AuthErrorView> {
    match decision {
        Ok(_) => Ok(()),
        Err(reason) => Err(reason@),
    }
}

/// The HTTP status that reports each reason.
pub open spec fn status_of_error(reason: AuthErrorView) -> u16 {
    match reason {
        AuthErrorView::MissingHeader(_) => 400,
        AuthErrorView::InvalidTimestamp => 401,
        AuthErrorView::InvalidSignature => 401,
        AuthErrorView::InvalidNonce => 500,
        AuthErrorView::ReplayAttack => 409,
        AuthErrorView::TimestampExpired => 401,
        AuthErrorView::InvalidKey => 500,
        AuthErrorView::InvalidHeader(_) => 400,
    }
}

/// The message that reports each reason.
pub open spec fn message_of_error(reason: AuthErrorView) -> Seq<char> {
    match reason {
        AuthErrorView::MissingHeader(name) => "Missing header: "@ + name,
        AuthErrorView::InvalidTimestamp => "Invalid timestamp"@,
        AuthErrorView::InvalidSignature => "Invalid signature"@,
        AuthErrorView::InvalidNonce => "Nonce validation failed"@,
        AuthErrorView::ReplayAttack => "Replay attack detected"@,
        AuthErrorView::TimestampExpired => "Timestamp expired"@,
        AuthErrorView::InvalidKey => "Configuration error"@,
        AuthErrorView::InvalidHeader(name) => "Invalid header: "@ + name,
    }
}

impl AuthError {
    /// The HTTP status that reports the error.
    pub fn status_code(&self) -> (status: u16)
        ensures
            status == status_of_error(self@),
    {
        match self {
            AuthError::MissingHeader(_) => 400,
            AuthError::InvalidTimestamp => 401,
            AuthError::InvalidSignature => 401,
            AuthError::InvalidNonce => 500,
            AuthError::ReplayAttack => 409,
            AuthError::TimestampExpired => 401,
            AuthError::InvalidKey => 500,
            AuthError::InvalidHeader(_) => 400,
        }
    }

    /// The message that reports the error.
    pub fn message(&self) -> (message: String)
        ensures
            message@ == message_of_error(self@),
    {
        match self {
            AuthError::MissingHeader(name) => "Missing header: ".to_owned().concat(name.as_str()),
            AuthError::InvalidTimestamp => "Invalid timestamp".to_owned(),
            AuthError::InvalidSignature => "Invalid signature".to_owned(),
            AuthError::InvalidNonce => "Nonce validation failed".to_owned(),
            AuthError::ReplayAttack => "Replay attack detected".to_owned(),
            AuthError::TimestampExpired => "Timestamp expired".to_owned(),
            AuthError::InvalidKey => "Configuration error".to_owned(),
            AuthError::InvalidHeader(name) => "Invalid header: ".to_owned().concat(name.as_str()),
        }
    }
}

/// The authentication fields of a request, as its headers carry them.
#[derive(Debug, Clone, PartialEq, Eq)]
pub struct Credentials {
    /// The timestamp as sent: milliseconds since the epoch, in decimal.
    pub timestamp: String,
    /// The nonce: any text, used once.
    pub nonce: String,
    /// The signature in hexadecimal.
    pub signature: String,
}

/// Mathematical view of `Credentials`.
pub struct CredentialsView {
    pub timestamp: Seq<char>,
    pub nonce: Seq<char>,
    pub signature: Seq<char>,
}

impl View for Credentials {
    type V = CredentialsView;

    open spec fn view(&self) -> CredentialsView {
        CredentialsView {
            timestamp: self.timestamp@,
            nonce: self.nonce@,
            signature: self.signature@,
        }
    }
}

/// The request that credentials and a body make up.
pub open spec fn with_body(credentials: CredentialsView, body: Seq<u8>) -> SignedRequestView {
    SignedRequestView {
        timestamp: credentials.timestamp,
        nonce: credentials.nonce,
        signature: credentials.signature,
        body,
    }
}

/// The authentication fields of a request and its body.
#[derive(Debug, Clone, PartialEq, Eq)]
pub struct SignedRequest {
    /// The timestamp as sent: milliseconds since the epoch, in decimal.
    pub timestamp: String,
    /// The nonce: any text, used once.
    pub nonce: String,
    /// The signature in hexadecimal.
    pub signature: String,
    /// The body of the request, byte for byte.
    pub body: Vec<u8>,
}

/// Mathematical view of a `SignedRequest`.
pub struct SignedRequestView {
    pub timestamp: Seq<char>,
    pub nonce: Seq<char>,
    pub signature: Seq<char>,
    pub body: Seq<u8>,
}

impl View for SignedRequest {
    type V = SignedRequestView;

    open spec fn view(&self) -> SignedRequestView {
        SignedRequestView {
            timestamp: self.timestamp@,
            nonce: self.nonce@,
            signature: self.signature@,
            body: self.body@,
        }
    }
}

/// The text of the header `name`, or why it cannot be had: it is missing,
/// or its value is not readable.
pub open spec fn header_outcome(headers: Seq<RawHeader>, name: Seq<char>) -> Result<
    Seq<char>,
    AuthErrorView,
> {
    match header_value(headers, name) {
        None => Err(AuthErrorView::MissingHeader(name)),
        Some(value) => if readable(value) {
            Ok(ascii_text(value))
        } else {
            Err(AuthErrorView::InvalidHeader(name))
        },
    }
}

/// The credentials that the headers carry, or the first reason why they
/// carry none. The headers are looked at in the order timestamp, nonce,
/// signature.
pub open spec fn credentials_of(headers: Seq<RawHeader>) -> Result<CredentialsView, AuthErrorView> {
    match header_outcome(headers, "x-scrybe-timestamp"@) {
        Err(reason) => Err(reason),
        Ok(timestamp) => match header_outcome(headers, "x-scrybe-nonce"@) {
            Err(reason) => Err(reason),
            Ok(nonce) => match header_outcome(headers, "x-scrybe-signature"@) {
                Err(reason) => Err(reason),
                Ok(signature) => Ok(CredentialsView { timestamp, nonce, signature }),
            },
        },
    }
}

/// The signed request that headers and body make up, or the first reason
/// why they make up none.
pub open spec fn request_of(headers: Seq<RawHeader>, body: Seq<u8>) -> Result<
    SignedRequestView,
    AuthErrorView,
> {
    match credentials_of(headers) {
        Err(reason) => Err(reason),
        Ok(credentials) => Ok(with_body(credentials, body)),
    }
}

/// Whether a timestamp lies within the window of the current time: the two
/// are at most `window_ms` apart, whichever is the later.
pub open spec fn within_window(timestamp_ms: int, now_ms: int, window_ms: int) -> bool {
    now_ms - timestamp_ms <= window_ms && timestamp_ms - now_ms <= window_ms
}

/// The outcome of the freshness check on a timestamp as sent.
pub open spec fn freshness(timestamp: Seq<char>, now_ms: int, window_ms: int) -> Result<
    (),
    AuthErrorView,
> {
    match parsed_i64(timestamp) {
        None => Err(AuthErrorView::InvalidTimestamp),
        Some(timestamp_ms) => if within_window(timestamp_ms as int, now_ms, window_ms) {
            Ok(())
        } else {
            Err(AuthErrorView::TimestampExpired)
        },
    }
}

/// The bytes that are signed: timestamp, nonce and body, with a colon
/// after each of the first two. The body goes in as it is.
pub open spec fn signing_bytes(timestamp: Seq<char>, nonce: Seq<char>, body: Seq<u8>) -> Seq<
    u8,
> {
    text_bytes(timestamp) + seq![58u8] + text_bytes(nonce) + seq![58u8] + body
}

/// The signature of a message under a key: HMAC-SHA256 in lower-case
/// hexadecimal.
pub open spec fn signature_of(key: Seq<u8>, message: Seq<u8>) -> Seq<char> {
    hex_lower(hmac_sha256(key, message))
}

/// The signature that a request must carry.
pub open spec fn expected_signature(key: Seq<u8>, request: SignedRequestView) -> Seq<char> {
    signature_of(key, signing_bytes(request.timestamp, request.nonce, request.body))
}

/// The outcome of the nonce check, given what the store answered; `None`
/// stands for a store that could not be asked.
pub open spec fn nonce_outcome(reply: Option<NonceStatus>) -> Result<(), AuthErrorView> {
    match reply {
        None => Err(AuthErrorView::InvalidNonce),
        Some(NonceStatus::AlreadyExists) => Err(AuthErrorView::ReplayAttack),
        Some(NonceStatus::New) => Ok(()),
    }
}

/// The decision on a request that passed the header and freshness checks:
/// the nonce decides first, then the signature.
pub open spec fn verdict(key: Seq<u8>, request: SignedRequestView, reply: Option<NonceStatus>) -> Result<
    (),
    AuthErrorView,
> {
    match nonce_outcome(reply) {
        Err(reason) => Err(reason),
        Ok(_) => if request.signature == expected_signature(key, request) {
            Ok(())
        } else {
            Err(AuthErrorView::InvalidSignature)
        },
    }
}

/// The outcome of the checks that need neither store nor body: headers,
/// then freshness.
pub open spec fn admitted_credentials(headers: Seq<RawHeader>, now_ms: int, window_ms: int) -> Result<
    CredentialsView,
    AuthErrorView,
> {
    match credentials_of(headers) {
        Err(reason) => Err(reason),
        Ok(credentials) => match freshness(credentials.timestamp, now_ms, window_ms) {
            Err(reason) => Err(reason),
            Ok(_) => Ok(credentials),
        },
    }
}

/// The request that passed the header and freshness checks, or the reason
/// why it did not.
pub open spec fn admitted_request(
    headers: Seq<RawHeader>,
    body: Seq<u8>,
    now_ms: int,
    window_ms: int,
) -> Result<SignedRequestView, AuthErrorView> {
    match admitted_credentials(headers, now_ms, window_ms) {
        Err(reason) => Err(reason),
        Ok(credentials) => Ok(with_body(credentials, body)),
    }
}

/// The decision on a request against the marks of a nonce store. The store
/// is asked only where headers and freshness pass.
pub open spec fn authentication_against(
    key: Seq<u8>,
    window_ms: int,
    headers: Seq<RawHeader>,
    body: Seq<u8>,
    now_ms: int,
    marks: Marks,
) -> Result<(), AuthErrorView> {
    match admitted_request(headers, body, now_ms, window_ms) {
        Err(reason) => Err(reason),
        Ok(request) => verdict(
            key,
            request,
            Some(status_of(marks, nonce_key(request.nonce), now_ms)),
        ),
    }
}

/// The marks of a nonce store after a request was decided on: where headers
/// and freshness pass, the nonce is marked, whatever the signature; where
/// they fail, the store is as before.
pub open spec fn marks_after_authentication(
    window_ms: int,
    ttl_seconds: int,
    headers: Seq<RawHeader>,
    body: Seq<u8>,
    now_ms: int,
    marks: Marks,
) -> Marks {
    match admitted_request(headers, body, now_ms, window_ms) {
        Err(_) => marks,
        Ok(request) => marks_after(marks, nonce_key(request.nonce), now_ms, ttl_seconds),
    }
}

/// What a store's answer, or its failure, means for the nonce check.
pub open spec fn reply_of(answer: Result<NonceStatus, ScrybeError>) -> Option<NonceStatus> {
    match answer {
        Ok(status) => Some(status),
        Err(_) => None,
    }
}

/// Reads the header `name` as text.
pub fn extract_header(headers: &[RawHeader], name: &str) -> (result: Result<String, AuthError>)
    ensures
        match header_outcome(headers@, name@) {
            Ok(text) => result matches Ok(s) && s@ == text,
            Err(reason) => result matches Err(e) && e@ == reason,
        },
{
    match find_header(headers, name) {
        None => Err(AuthError::MissingHeader(name.to_owned())),
        Some(header) => match header_text(header.value.as_slice()) {
            Some(text) => Ok(text),
            None => Err(AuthError::InvalidHeader(name.to_owned())),
        },
    }
}

/// Decides whether two times are at most `window_ms` apart.
pub fn is_within_window(timestamp_ms: i64, now_ms: i64, window_ms: i64) -> (fresh: bool)
    ensures
        fresh == within_window(timestamp_ms as int, now_ms as int, window_ms as int),
{
    let elapsed: i128 = now_ms as i128 - timestamp_ms as i128;
    let window: i128 = window_ms as i128;
    elapsed <= window && -elapsed <= window
}

/// Checks the freshness of a timestamp as sent, against a window.
pub fn validate_timestamp_within(timestamp_str: &str, now_ms: i64, window_ms: i64) -> (result:
    Result<(), AuthError>)
    ensures
        decision_view(result) == freshness(timestamp_str@, now_ms as int, window_ms as int),
{
    match parse_i64(timestamp_str) {
        None => Err(AuthError::InvalidTimestamp),
        Some(timestamp_ms) => {
            if is_within_window(timestamp_ms, now_ms, window_ms) {
                Ok(())
            } else {
                Err(AuthError::TimestampExpired)
            }
        },
    }
}

/// Checks that a timestamp as sent lies within five minutes of `now_ms`:
/// `InvalidTimestamp` where it is not a number, `TimestampExpired` where it
/// is more than five minutes in the past or in the future.
pub fn validate_timestamp(timestamp_str: &str, now_ms: i64) -> (result: Result<(), AuthError>)
    ensures
        decision_view(result) == freshness(
            timestamp_str@,
            now_ms as int,
            FRESHNESS_WINDOW_MS as int,
        ),
{
    validate_timestamp_within(timestamp_str, now_ms, FRESHNESS_WINDOW_MS)
}

/// Builds the message that is signed: `timestamp:nonce:body`.
pub fn signing_message(timestamp: &str, nonce: &str, body: &[u8]) -> (message: Vec<u8>)
    ensures
        message@ == signing_bytes(timestamp@, nonce@, body@),
{
    let mut message: Vec<u8> = Vec::new();
    append_text(&mut message, timestamp);
    message.push(58u8);
    append_text(&mut message, nonce);
    message.push(58u8);
    append_bytes(&mut message, body);
    message
}

/// Signs a message: its HMAC-SHA256 under `key`, as 64 lower-case
/// hexadecimal characters. A key of any length is taken, so the result is
/// never an error.
pub fn compute_signature(message: &[u8], key: &[u8]) -> (result: Result<String, AuthError>)
    ensures
        result matches Ok(signature) && signature@ == signature_of(key@, message@)
            && is_hex_digest(signature@),
{
    match hmac_sha256_code(key, message) {
        Ok(code) => {
            proof {
                lemma_hex_lower_shape(code@);
            }
            Ok(hex_encode(code.as_slice()))
        },
        Err(_) => Err(AuthError::InvalidKey),
    }
}

/// Compares two signatures in time that does not depend on where they
/// differ.
pub fn signatures_match(expected: &str, provided: &str) -> (same: bool)
    ensures
        same == (expected@ == provided@),
{
    proof {
        if text_bytes(expected@) == text_bytes(provided@) {
            lemma_text_bytes_injective(expected@, provided@);
        }
    }
    constant_time_eq(expected.as_bytes(), provided.as_bytes())
}

impl Credentials {
    /// Takes the authentication fields of a request out of its headers.
    pub fn from_headers(headers: &[RawHeader]) -> (result: Result<Credentials, AuthError>)
        ensures
            match credentials_of(headers@) {
                Ok(credentials) => result matches Ok(c) && c@ == credentials,
                Err(reason) => result matches Err(e) && e@ == reason,
            },
    {
        let timestamp = match extract_header(headers, "x-scrybe-timestamp") {
            Ok(text) => text,
            Err(e) => {
                return Err(e);
            },
        };
        let nonce = match extract_header(headers, "x-scrybe-nonce") {
            Ok(text) => text,
            Err(e) => {
                return Err(e);
            },
        };
        let signature = match extract_header(headers, "x-scrybe-signature") {
            Ok(text) => text,
            Err(e) => {
                return Err(e);
            },
        };
        Ok(Credentials { timestamp, nonce, signature })
    }

    /// The signed request that these credentials make up with a body.
    pub fn with_body(self, body: Vec<u8>) -> (request: SignedRequest)
        ensures
            request@ == with_body(self@, body@),
    {
        SignedRequest {
            timestamp: self.timestamp,
            nonce: self.nonce,
            signature: self.signature,
            body,
        }
    }
}

impl SignedRequest {
    /// Takes the authentication fields of a request out of its headers and
    /// joins them with its body.
    pub fn from_headers(headers: &[RawHeader], body: &[u8]) -> (result: Result<
        SignedRequest,
        AuthError,
    >)
        ensures
            match request_of(headers@, body@) {
                Ok(request) => result matches Ok(r) && r@ == request,
                Err(reason) => result matches Err(e) && e@ == reason,
            },
    {
        match Credentials::from_headers(headers) {
            Ok(credentials) => Ok(credentials.with_body(vstd::slice::slice_to_vec(body))),
            Err(e) => Err(e),
        }
    }
}

/// Authenticates requests under one shared key.
pub struct AuthenticationValidator {
    key: Vec<u8>,
    window_ms: i64,
    nonces: NonceValidator,
}

impl AuthenticationValidator {
    /// The key that requests are signed with.
    pub closed spec fn key(&self) -> Seq<u8> {
        self.key@
    }

    /// The freshness window in milliseconds.
    pub closed spec fn window_ms(&self) -> i64 {
        self.window_ms
    }

    /// The time to live of a nonce in seconds.
    pub closed spec fn nonce_ttl(&self) -> usize {
        self.nonces.ttl()
    }

    /// A validator for `key` with a freshness window and a nonce time to
    /// live of five minutes each.
    pub fn new(key: Vec<u8>) -> (validator: AuthenticationValidator)
        ensures
            validator.key() == key@,
            validator.window_ms() == FRESHNESS_WINDOW_MS,
            validator.nonce_ttl() == DEFAULT_NONCE_TTL_SECONDS,
    {
        AuthenticationValidator {
            key,
            window_ms: FRESHNESS_WINDOW_MS,
            nonces: NonceValidator::new(None),
        }
    }

    /// A validator for `key` with a freshness window of `window_seconds`. A
    /// nonce lives as long as the window is wide.
    pub fn with_window(key: Vec<u8>, window_seconds: u32) -> (validator: AuthenticationValidator)
        ensures
            validator.key() == key@,
            validator.window_ms() == window_seconds * 1000,
            validator.nonce_ttl() == window_seconds,
    {
        let window_ms: i64 = window_seconds as i64 * 1000;
        AuthenticationValidator {
            key,
            window_ms,
            nonces: NonceValidator::new(Some(window_seconds as usize)),
        }
    }

    /// The time to live with which a nonce is to be marked, in seconds.
    pub fn nonce_ttl_seconds(&self) -> (ttl: usize)
        ensures
            ttl == self.nonce_ttl(),
    {
        self.nonces.ttl_seconds()
    }

    /// Signs a request: the signature that `timestamp`, `nonce` and `body`
    /// must carry to be accepted.
    pub fn sign(&self, timestamp: &str, nonce: &str, body: &[u8]) -> (signature: String)
        ensures
            signature@ == signature_of(self.key(), signing_bytes(timestamp@, nonce@, body@)),
    {
        let message = signing_message(timestamp, nonce, body);
        match compute_signature(message.as_slice(), self.key.as_slice()) {
            Ok(signature) => signature,
            Err(_) => String::new(),
        }
    }

    /// Runs the checks that need neither store nor body: takes the
    /// authentication fields out of the headers and checks the freshness of
    /// the timestamp. Where this yields credentials, their nonce is to be
    /// checked and marked next.
    pub fn begin(&self, headers: &[RawHeader], now_ms: i64) -> (result: Result<
        Credentials,
        AuthError,
    >)
        ensures
            match admitted_credentials(headers@, now_ms as int, self.window_ms() as int) {
                Ok(credentials) => result matches Ok(c) && c@ == credentials,
                Err(reason) => result matches Err(e) && e@ == reason,
            },
    {
        let credentials = match Credentials::from_headers(headers) {
            Ok(credentials) => credentials,
            Err(e) => {
                return Err(e);
            },
        };
        match validate_timestamp_within(credentials.timestamp.as_str(), now_ms, self.window_ms) {
            Ok(_) => Ok(credentials),
            Err(e) => Err(e),
        }
    }

    /// Decides on a request that passed `begin`, given the answer of the
    /// nonce store. A store that failed rejects the request as
    /// `InvalidNonce`; it is never taken as an answer either way. A nonce
    /// that was used before rejects it as `ReplayAttack`, whatever the
    /// signature. Otherwise the signature decides.
    pub fn finish(&self, request: &SignedRequest, answer: Result<NonceStatus, ScrybeError>) -> (result:
        Result<(), AuthError>)
        ensures
            decision_view(result) == verdict(self.key(), request@, reply_of(answer)),
    {
        match answer {
            Err(_) => {
                return Err(AuthError::InvalidNonce);
            },
            Ok(NonceStatus::AlreadyExists) => {
                return Err(AuthError::ReplayAttack);
            },
            Ok(NonceStatus::New) => {},
        }
        let message = signing_message(
            request.timestamp.as_str(),
            request.nonce.as_str(),
            request.body.as_slice(),
        );
        let expected = match compute_signature(message.as_slice(), self.key.as_slice()) {
            Ok(signature) => signature,
            Err(e) => {
                return Err(e);
            },
        };
        if signatures_match(expected.as_str(), request.signature.as_str()) {
            Ok(())
        } else {
            Err(AuthError::InvalidSignature)
        }
    }

    /// Authenticates a request against an in-process nonce store: headers,
    /// freshness, nonce and signature, in this order. The nonce is marked
    /// as soon as headers and freshness pass, also where the signature then
    /// fails.
    pub fn authenticate(
        &self,
        store: &mut NonceStore,
        headers: &[RawHeader],
        body: &[u8],
        now_ms: i64,
    ) -> (result: Result<(), AuthError>)
        ensures
            decision_view(result) == authentication_against(
                self.key(),
                self.window_ms() as int,
                headers@,
                body@,
                now_ms as int,
                old(store)@,
            ),
            final(store)@ == marks_after_authentication(
                self.window_ms() as int,
                self.nonce_ttl() as int,
                headers@,
                body@,
                now_ms as int,
                old(store)@,
            ),
    {
        let credentials = match self.begin(headers, now_ms) {
            Ok(credentials) => credentials,
            Err(e) => {
                return Err(e);
            },
        };
        let key = NonceValidator::key_for(credentials.nonce.as_str());
        let status = store.check_and_mark(
            key.as_str(),
            now_ms,
            self.nonces.ttl_seconds() as u64,
        );
        let request = credentials.with_body(vstd::slice::slice_to_vec(body));
        self.finish(&request, Ok(status))
    }
}

/// A correctly signed request is accepted: where the headers carry the
/// signature of their own timestamp, nonce and body under the key, the
/// timestamp is fresh and the nonce is unused, the decision is `Ok`.
pub proof fn lemma_signed_request_accepted(
    key: Seq<u8>,
    window_ms: int,
    headers: Seq<RawHeader>,
    body: Seq<u8>,
    now_ms: int,
    marks: Marks,
)
    requires
        admitted_request(headers, body, now_ms, window_ms) matches Ok(request)
            && request.signature == expected_signature(key, request) && !is_marked(
            marks,
            nonce_key(request.nonce),
            now_ms,
        ),
    ensures
        authentication_against(key, window_ms, headers, body, now_ms, marks) == Ok::<
            (),
            AuthErrorView,
        >(()),
        verdict(
            key,
            admitted_request(headers, body, now_ms, window_ms)->Ok_0,
            Some(NonceStatus::New),
        ) == Ok::<(), AuthErrorView>(()),
{
}

/// A stale or post-dated request is rejected as expired, whatever its
/// signature, its nonce, the key and the state of the store: where the
/// headers are readable and the timestamp is a number more than the window
/// away from the current time, the decision is `TimestampExpired`.
pub proof fn lemma_expired_rejected(
    key: Seq<u8>,
    window_ms: int,
    headers: Seq<RawHeader>,
    body: Seq<u8>,
    now_ms: int,
    marks: Marks,
)
    requires
        request_of(headers, body) matches Ok(request) && parsed_i64(request.timestamp) matches Some(
            timestamp_ms,
        ) && (now_ms - timestamp_ms > window_ms || timestamp_ms - now_ms > window_ms),
    ensures
        admitted_request(headers, body, now_ms, window_ms) == Err::<
            SignedRequestView,
            AuthErrorView,
        >(AuthErrorView::TimestampExpired),
        authentication_against(key, window_ms, headers, body, now_ms, marks) == Err::<
            (),
            AuthErrorView,
        >(AuthErrorView::TimestampExpired),
{
}

/// A replayed request is rejected even with a valid signature: where
/// headers and freshness pass and the nonce is marked as used, the decision
/// is `ReplayAttack`. A store that cannot be asked rejects the request as
/// `InvalidNonce`.
pub proof fn lemma_replay_rejected(
    key: Seq<u8>,
    window_ms: int,
    headers: Seq<RawHeader>,
    body: Seq<u8>,
    now_ms: int,
    marks: Marks,
)
    requires
        admitted_request(headers, body, now_ms, window_ms) matches Ok(request) && is_marked(
            marks,
            nonce_key(request.nonce),
            now_ms,
        ),
    ensures
        authentication_against(key, window_ms, headers, body, now_ms, marks) == Err::<
            (),
            AuthErrorView,
        >(AuthErrorView::ReplayAttack),
        verdict(
            key,
            admitted_request(headers, body, now_ms, window_ms)->Ok_0,
            Some(NonceStatus::AlreadyExists),
        ) == Err::<(), AuthErrorView>(AuthErrorView::ReplayAttack),
        verdict(key, admitted_request(headers, body, now_ms, window_ms)->Ok_0, None) == Err::<
            (),
            AuthErrorView,
        >(AuthErrorView::InvalidNonce),
{
}

/// The same request twice: against a store in which its nonce is unmarked,
/// a correctly signed fresh request is accepted, and the same request
/// again, while the mark lives, is rejected as a replay.
pub proof fn lemma_resubmission_rejected(
    key: Seq<u8>,
    window_ms: int,
    ttl_seconds: u64,
    headers: Seq<RawHeader>,
    body: Seq<u8>,
    first_ms: i64,
    second_ms: i64,
    marks: Marks,
)
    requires
        admitted_request(headers, body, first_ms as int, window_ms) matches Ok(request)
            && request.signature == expected_signature(key, request) && !is_marked(
            marks,
            nonce_key(request.nonce),
            first_ms as int,
        ),
        admitted_request(headers, body, second_ms as int, window_ms) is Ok,
        second_ms < first_ms + ttl_seconds * 1000,
    ensures
        authentication_against(key, window_ms, headers, body, first_ms as int, marks) == Ok::<
            (),
            AuthErrorView,
        >(()),
        authentication_against(
            key,
            window_ms,
            headers,
            body,
            second_ms as int,
            marks_after_authentication(
                window_ms,
                ttl_seconds as int,
                headers,
                body,
                first_ms as int,
                marks,
            ),
        ) == Err::<(), AuthErrorView>(AuthErrorView::ReplayAttack),
{
}

/// A wrong signature still uses up the nonce: where headers and freshness
/// pass, the nonce is marked after the decision, whatever the decision was.
pub proof fn lemma_nonce_consumed(
    window_ms: int,
    ttl_seconds: u64,
    headers: Seq<RawHeader>,
    body: Seq<u8>,
    now_ms: i64,
    marks: Marks,
)
    requires
        admitted_request(headers, body, now_ms as int, window_ms) is Ok,
        ttl_seconds > 0,
    ensures
        is_marked(
            marks_after_authentication(
                window_ms,
                ttl_seconds as int,
                headers,
                body,
                now_ms as int,
                marks,
            ),
            nonce_key(admitted_request(headers, body, now_ms as int, window_ms)->Ok_0.nonce),
            now_ms as int,
        ),
{
}

} // verus!
