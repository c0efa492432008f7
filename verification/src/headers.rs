//! Request headers as plain values: lookup by name, and the headers that
//! are kept as fingerprinting signals.
//!
//! A header is a name and the bytes of its value, as the transport received
//! them. Names are in lower case, the form in which HTTP/2 carries them and
//! HTTP libraries compare them.

use vstd::prelude::*;
use crate::text::{ascii_text, text_from_ascii};
use crate::types::network::{header_views, Header, HttpVersion};

verus! {

/// A header of a request.
#[derive(Debug, Clone, PartialEq, Eq)]
pub struct RawHeader {
    /// Header name, in lower case.
    pub name: String,
    /// The bytes of the value.
    pub value: Vec<u8>,
}

impl RawHeader {
    /// A header with the given name and value.
    pub fn new(name: &str, value: &[u8]) -> (header: RawHeader)
        ensures
            header.name@ == name@,
            header.value@ == value@,
    {
        RawHeader { name: name.to_owned(), value: vstd::slice::slice_to_vec(value) }
    }
}

/// Whether a byte is visible ASCII: a printable character, a space or a tab.
pub open spec fn is_visible_ascii(b: u8) -> bool {
    (32 <= b && b < 127) || b == 9
}

/// Whether a header value reads as text: all its bytes are visible ASCII.
pub open spec fn readable(value: Seq<u8>) -> bool {
    forall|i: int| 0 <= i < value.len() ==> is_visible_ascii(#[trigger] value[i])
}

/// The value of the first header named `name`, if there is one.
pub open spec fn header_value(headers: Seq<RawHeader>, name: Seq<char>) -> Option<Seq<u8>>
    decreases headers.len(),
{
    if headers.len() == 0 {
        None
    } else if headers[0].name@ == name {
        Some(headers[0].value@)
    } else {
        header_value(headers.drop_first(), name)
    }
}

/// The list `sofar`, with the header `name` added at its end where the
/// request has a readable one.
pub open spec fn with_captured(
    sofar: Seq<(Seq<char>, Seq<char>)>,
    headers: Seq<RawHeader>,
    name: Seq<char>,
) -> Seq<(Seq<char>, Seq<char>)> {
    match header_value(headers, name) {
        Some(value) => if readable(value) {
            sofar.push((name, ascii_text(value)))
        } else {
            sofar
        },
        None => sofar,
    }
}

/// The headers that are kept as signals, in this order: the user agent, the
/// accept headers, the referer, the fetch metadata and the client hints.
/// Credentials and cookies are not among them.
pub open spec fn captured_headers(headers: Seq<RawHeader>) -> Seq<(Seq<char>, Seq<char>)> {
    let s0 = with_captured(Seq::empty(), headers, "user-agent"@);
    let s1 = with_captured(s0, headers, "accept"@);
    let s2 = with_captured(s1, headers, "accept-language"@);
    let s3 = with_captured(s2, headers, "accept-encoding"@);
    let s4 = with_captured(s3, headers, "referer"@);
    let s5 = with_captured(s4, headers, "sec-fetch-dest"@);
    let s6 = with_captured(s5, headers, "sec-fetch-mode"@);
    let s7 = with_captured(s6, headers, "sec-fetch-site"@);
    let s8 = with_captured(s7, headers, "sec-ch-ua"@);
    let s9 = with_captured(s8, headers, "sec-ch-ua-mobile"@);
    with_captured(s9, headers, "sec-ch-ua-platform"@)
}

/// Finds the first header named `name`.
pub fn find_header<'a>(headers: &'a [RawHeader], name: &str) -> (found: Option<&'a RawHeader>)
    ensures
        found is Some <==> header_value(headers@, name@) is Some,
        found matches Some(header) ==> header.name@ == name@ && Some(header.value@) == header_value(
            headers@,
            name@,
        ),
{
    let wanted = name.to_owned();
    let count: usize = headers.len();
    let mut i: usize = 0;
    assert(headers@.skip(0) =~= headers@);
    while i < count
        invariant
            count == headers@.len(),
            i <= count,
            wanted@ == name@,
            header_value(headers@, name@) == header_value(headers@.skip(i as int), name@),
        decreases count - i,
    {
        proof {
            assert(headers@.skip(i as int).drop_first() =~= headers@.skip(i + 1));
        }
        if headers[i].name == wanted {
            return Some(&headers[i]);
        }
        i = i + 1;
    }
    None
}

/// Checks that a header value is visible ASCII throughout.
pub fn is_readable(value: &[u8]) -> (ok: bool)
    ensures
        ok == readable(value@),
{
    let count: usize = value.len();
    let mut ok = true;
    let mut i: usize = 0;
    while i < count
        invariant
            count == value@.len(),
            i <= count,
            ok == (forall|j: int| 0 <= j < i ==> is_visible_ascii(#[trigger] value@[j])),
        decreases count - i,
    {
        let b: u8 = value[i];
        if !((b >= 32 && b < 127) || b == 9) {
            ok = false;
        }
        i = i + 1;
    }
    ok
}

/// Reads a header value as text: `Some` where all its bytes are visible
/// ASCII, with one character per byte.
pub fn header_text(value: &[u8]) -> (text: Option<String>)
    ensures
        text is Some <==> readable(value@),
        text matches Some(s) ==> s@ == ascii_text(value@),
{
    if is_readable(value) {
        Some(text_from_ascii(value))
    } else {
        None
    }
}

/// Adds the header `name` to `kept` where the request has a readable one.
fn capture(kept: &mut Vec<Header>, headers: &[RawHeader], name: &str)
    ensures
        header_views(final(kept)@) == with_captured(
            header_views(old(kept)@),
            headers@,
            name@,
        ),
{
    match find_header(headers, name) {
        Some(header) => {
            match header_text(header.value.as_slice()) {
                Some(text) => {
                    kept.push(Header { name: name.to_owned(), value: text });
                },
                None => {},
            }
        },
        None => {},
    }
}

/// Picks the headers that are kept as signals out of the headers of a
/// request. A header that is absent, or whose value is not readable text,
/// is left out. Authorization and cookie headers are never kept.
pub fn extract_headers(headers: &[RawHeader]) -> (kept: Vec<Header>)
    ensures
        header_views(kept@) == captured_headers(headers@),
{
    let mut kept: Vec<Header> = Vec::new();
    assert(header_views(kept@) =~= Seq::empty());
    capture(&mut kept, headers, "user-agent");
    capture(&mut kept, headers, "accept");
    capture(&mut kept, headers, "accept-language");
    capture(&mut kept, headers, "accept-encoding");
    capture(&mut kept, headers, "referer");
    capture(&mut kept, headers, "sec-fetch-dest");
    capture(&mut kept, headers, "sec-fetch-mode");
    capture(&mut kept, headers, "sec-fetch-site");
    capture(&mut kept, headers, "sec-ch-ua");
    capture(&mut kept, headers, "sec-ch-ua-mobile");
    capture(&mut kept, headers, "sec-ch-ua-platform");
    kept
}

/// The headers that harden every response: transport security for a year,
/// no content sniffing, no framing, a content policy that allows nothing,
/// cross-site-scripting protection for old browsers, and no referrer.
pub open spec fn security_header_set() -> Seq<(Seq<char>, Seq<char>)> {
    seq![
        ("strict-transport-security"@, "max-age=31536000; includeSubDomains; preload"@),
        ("x-content-type-options"@, "nosniff"@),
        ("x-frame-options"@, "DENY"@),
        ("content-security-policy"@, "default-src 'none'; frame-ancestors 'none'"@),
        ("x-xss-protection"@, "1; mode=block"@),
        ("referrer-policy"@, "no-referrer"@),
    ]
}

/// The headers that are set on every response, in the order in which they
/// are set.
pub fn security_headers() -> (headers: Vec<Header>)
    ensures
        header_views(headers@) == security_header_set(),
{
    let mut headers: Vec<Header> = Vec::new();
    headers.push(
        Header::new("strict-transport-security", "max-age=31536000; includeSubDomains; preload"),
    );
    headers.push(Header::new("x-content-type-options", "nosniff"));
    headers.push(Header::new("x-frame-options", "DENY"));
    headers.push(
        Header::new("content-security-policy", "default-src 'none'; frame-ancestors 'none'"),
    );
    headers.push(Header::new("x-xss-protection", "1; mode=block"));
    headers.push(Header::new("referrer-policy", "no-referrer"));
    headers
}

/// The protocol version of a request: what `HttpVersion::from_hyper` reads
/// from the version that the HTTP library reports. As there, no contract
/// stands here, the reported version being opaque to the verifier.
pub fn extract_http_version(version: &http::Version) -> HttpVersion {
    HttpVersion::from_hyper(version)
}

} // verus!
