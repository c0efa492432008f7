//! The ingestion endpoint, as far as it decides: how the signals that the
//! server observed are merged into those that the client declared, and how
//! errors are reported.

use vstd::prelude::*;
use vstd::std_specs::convert::FromSpecImpl;
use crate::error::ScrybeError;
use crate::types::behavioral::{
    bounded,
    BehavioralSignals,
    MAX_CLICK_EVENTS,
    MAX_MOUSE_EVENTS,
    MAX_SCROLL_EVENTS,
};
use crate::types::browser::BrowserSignals;
use crate::types::network::{header_views, Header, HttpVersion, NetworkSignals};
use crate::types::session::SignalBundle;

verus! {

/// What a client sends to the ingestion endpoint.
#[derive(Debug, Clone, PartialEq)]
pub struct IngestRequest {
    /// Network signals as the client declared them.
    pub network: NetworkSignals,
    /// Browser signals.
    pub browser: BrowserSignals,
    /// Behavioural signals.
    pub behavioral: BehavioralSignals,
}

/// What the ingestion endpoint answers.
#[derive(Debug, Clone, PartialEq, Eq)]
pub struct IngestResponse {
    /// The session that the telemetry was filed under.
    pub session_id: String,
    /// Whether the session is new.
    pub is_new: bool,
    /// Server time of the ingestion.
    pub timestamp: String,
}

impl IngestResponse {
    /// The answer for telemetry filed under a new session.
    pub fn new_session(session_id: String, timestamp: String) -> (response: IngestResponse)
        ensures
            response.session_id == session_id,
            response.is_new,
            response.timestamp == timestamp,
    {
        IngestResponse { session_id, is_new: true, timestamp }
    }
}

impl IngestRequest {
    /// Merges what the server observed into what the client declared. The
    /// address and the protocol version are the server's: a client cannot
    /// choose them. The headers that the server saw follow those that the
    /// client declared. Event lists over their bounds are cut down to them,
    /// so that no bundle holds unbounded input. Everything else stays as
    /// the client sent it.
    pub fn merge_server_signals(
        self,
        client_ip: String,
        http_version: HttpVersion,
        server_headers: Vec<Header>,
    ) -> (bundle: SignalBundle)
        ensures
            bundle.network.ip == client_ip,
            bundle.network.http_version == http_version,
            bundle.network.headers@ == self.network.headers@ + server_headers@,
            bundle.network.ja3 == self.network.ja3,
            bundle.network.ja4 == self.network.ja4,
            bundle.browser == self.browser,
            bundle.behavioral.within_bounds(),
            bundle.behavioral.mouse_events@ == bounded(
                self.behavioral.mouse_events@,
                MAX_MOUSE_EVENTS,
            ),
            bundle.behavioral.scroll_events@ == bounded(
                self.behavioral.scroll_events@,
                MAX_SCROLL_EVENTS,
            ),
            bundle.behavioral.click_events@ == bounded(
                self.behavioral.click_events@,
                MAX_CLICK_EVENTS,
            ),
            bundle.behavioral.timing == self.behavioral.timing,
    {
        let mut network = self.network;
        let mut server_headers = server_headers;
        let mut behavioral = self.behavioral;
        network.ip = client_ip;
        network.http_version = http_version;
        network.headers.append(&mut server_headers);
        behavioral.truncate_to_bounds();
        SignalBundle { network, browser: self.browser, behavioral }
    }
}

/// An error on its way to the client.
#[derive(Debug)]
pub struct AppError(pub ScrybeError);

impl From<ScrybeError> for AppError {
    fn from(err: ScrybeError) -> (wrapped: AppError) {
        AppError(err)
    }
}

impl FromSpecImpl<ScrybeError> for AppError {
    open spec fn obeys_from_spec() -> bool {
        true
    }

    open spec fn from_spec(err: ScrybeError) -> AppError {
        AppError(err)
    }
}

/// The HTTP status that reports an error.
pub open spec fn status_of_app_error(err: ScrybeError) -> u16 {
    match err {
        ScrybeError::InvalidSession { .. } => 400,
        ScrybeError::ValidationError { .. } => 400,
        ScrybeError::AuthenticationError { .. } => 401,
        ScrybeError::RateLimit { .. } => 429,
        _ => 500,
    }
}

/// The message that reports an error to the client. Errors of the request
/// are told in full; of a failed authentication and of internal errors the
/// client learns no detail.
pub open spec fn message_of_app_error(err: ScrybeError) -> Seq<char> {
    match err {
        ScrybeError::InvalidSession { .. } => err.text(),
        ScrybeError::ValidationError { .. } => err.text(),
        ScrybeError::AuthenticationError { .. } => "Authentication failed"@,
        ScrybeError::RateLimit { .. } => err.text(),
        _ => "Internal server error"@,
    }
}

impl AppError {
    /// The HTTP status that reports the error.
    pub fn status_code(&self) -> (status: u16)
        ensures
            status == status_of_app_error(self.0),
    {
        match &self.0 {
            ScrybeError::InvalidSession { .. } => 400,
            ScrybeError::ValidationError { .. } => 400,
            ScrybeError::AuthenticationError { .. } => 401,
            ScrybeError::RateLimit { .. } => 429,
            _ => 500,
        }
    }

    /// The message that reports the error to the client.
    pub fn message(&self) -> (message: String)
        ensures
            message@ == message_of_app_error(self.0),
    {
        match &self.0 {
            ScrybeError::InvalidSession { .. } => self.0.to_string(),
            ScrybeError::ValidationError { .. } => self.0.to_string(),
            ScrybeError::AuthenticationError { .. } => "Authentication failed".to_owned(),
            ScrybeError::RateLimit { .. } => self.0.to_string(),
            _ => "Internal server error".to_owned(),
        }
    }
}

} // verus!
