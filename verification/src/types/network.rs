//! Signals of the network layer.

use vstd::prelude::*;
use crate::text::option_text;

verus! {

/// One HTTP header.
#[derive(Debug, Clone, PartialEq, Eq)]
pub struct Header {
    /// Header name, such as "User-Agent".
    pub name: String,
    /// Header value.
    pub value: String,
}

impl Header {
    /// A header with the given name and value.
    pub fn new(name: &str, value: &str) -> (header: Header)
        ensures
            header.name@ == name@,
            header.value@ == value@,
    {
        Header { name: name.to_owned(), value: value.to_owned() }
    }
}

impl View for Header {
    type V = (Seq<char>, Seq<char>);

    open spec fn view(&self) -> (Seq<char>, Seq<char>) {
        (self.name@, self.value@)
    }
}

/// HTTP protocol version.
#[derive(Debug, Clone, Copy, PartialEq, Eq)]
pub enum HttpVersion {
    /// HTTP/1.0
    Http10,
    /// HTTP/1.1
    Http11,
    /// HTTP/2
    Http2,
    /// HTTP/3
    Http3,
}

impl Default for HttpVersion {
    fn default() -> (version: HttpVersion)
        ensures
            version == HttpVersion::Http11,
    {
        HttpVersion::Http11
    }
}

/// Declares `http::Version`, the protocol version of a request. Nothing is
/// known of its values.
#[verifier::external_type_specification]
#[verifier::external_body]
pub struct ExVersion(http::Version);

/// Tells the constants of `http::Version` apart: `HTTP_10`, `HTTP_11`,
/// `HTTP_2` and `HTTP_3` each give their version, any other value gives
/// `None`. Trusted: nothing is stated of the result.
#[verifier::external_body]
fn known_version(version: &http::Version) -> Option<HttpVersion> {
    match *version {
        http::Version::HTTP_10 => Some(HttpVersion::Http10),
        http::Version::HTTP_11 => Some(HttpVersion::Http11),
        http::Version::HTTP_2 => Some(HttpVersion::Http2),
        http::Version::HTTP_3 => Some(HttpVersion::Http3),
        _ => None,
    }
}

impl HttpVersion {
    /// The version that stands for a request: the one that was recognized,
    /// or HTTP/1.1 where none was.
    pub fn or_default(known: Option<HttpVersion>) -> (version: HttpVersion)
        ensures
            version == (match known {
                Some(v) => v,
                None => HttpVersion::Http11,
            }),
    {
        match known {
            Some(v) => v,
            None => HttpVersion::Http11,
        }
    }

    /// The version of a request, from the version that the HTTP library
    /// reports. A version other than 1.0, 1.1, 2 and 3 counts as HTTP/1.1.
    ///
    /// No contract stands here: an `http::Version` is opaque to the
    /// verifier, so which of its constants a value is cannot be spoken of.
    /// What is decided here, the default, is stated by `or_default`.
    pub fn from_hyper(version: &http::Version) -> HttpVersion {
        Self::or_default(known_version(version))
    }
}

/// Signals collected from the connection. The client address is held as
/// text, the form in which it is hashed and stored.
#[derive(Debug, Clone, PartialEq)]
pub struct NetworkSignals {
    /// Client IP address, as text.
    pub ip: String,
    /// JA3 TLS fingerprint, where available.
    pub ja3: Option<String>,
    /// JA4 TLS fingerprint, where available.
    pub ja4: Option<String>,
    /// HTTP headers.
    pub headers: Vec<Header>,
    /// HTTP version of the request.
    pub http_version: HttpVersion,
}

/// Mathematical view of `NetworkSignals`.
pub struct NetworkSignalsView {
    pub ip: Seq<char>,
    pub ja3: Option<Seq<char>>,
    pub ja4: Option<Seq<char>>,
    pub headers: Seq<(Seq<char>, Seq<char>)>,
    pub http_version: HttpVersion,
}

/// The views of a list of headers.
pub open spec fn header_views(headers: Seq<Header>) -> Seq<(Seq<char>, Seq<char>)> {
    headers.map_values(|h: Header| h@)
}

impl View for NetworkSignals {
    type V = NetworkSignalsView;

    open spec fn view(&self) -> NetworkSignalsView {
        NetworkSignalsView {
            ip: self.ip@,
            ja3: option_text(self.ja3),
            ja4: option_text(self.ja4),
            headers: header_views(self.headers@),
            http_version: self.http_version,
        }
    }
}

} // verus!
