use scrybe::headers::{
    extract_headers, extract_http_version, find_header, header_text, is_readable, security_headers,
    RawHeader,
};
use scrybe::ingest::{IngestRequest, IngestResponse};
use scrybe::session_cache::SessionCache;
use scrybe::types::behavioral::{BehavioralSignals, MouseEvent, MouseEventType, TimingMetrics};
use scrybe::types::browser::{BrowserSignals, ScreenInfo};
use scrybe::types::network::{Header, HttpVersion, NetworkSignals};

#[test]
fn test_extract_headers() {
    let headers = vec![
        RawHeader::new("user-agent", b"Mozilla/5.0"),
        RawHeader::new("accept-language", b"en-US,en;q=0.9"),
    ];

    let extracted = extract_headers(&headers);

    assert_eq!(extracted.len(), 2);
    assert!(extracted.iter().any(|h| h.name == "user-agent"));
    assert!(extracted.iter().any(|h| h.name == "accept-language"));
}

#[test]
fn test_extract_headers_filters_sensitive() {
    let headers = vec![
        RawHeader::new("user-agent", b"Mozilla/5.0"),
        RawHeader::new("authorization", b"Bearer secret"),
        RawHeader::new("cookie", b"session=abc123"),
    ];

    let extracted = extract_headers(&headers);

    // Should only capture user-agent, not authorization or cookie
    assert_eq!(extracted.len(), 1);
    assert!(extracted.iter().any(|h| h.name == "user-agent"));
    assert!(!extracted.iter().any(|h| h.name == "authorization"));
    assert!(!extracted.iter().any(|h| h.name == "cookie"));
}

#[test]
fn test_extract_http_version() {
    let version = http::Version::HTTP_11;
    let extracted = extract_http_version(&version);
    assert_eq!(extracted, HttpVersion::Http11);

    let version = http::Version::HTTP_2;
    let extracted = extract_http_version(&version);
    assert_eq!(extracted, HttpVersion::Http2);
}

#[test]
fn http_versions_map_one_to_one() {
    assert_eq!(HttpVersion::from_hyper(&http::Version::HTTP_10), HttpVersion::Http10);
    assert_eq!(HttpVersion::from_hyper(&http::Version::HTTP_11), HttpVersion::Http11);
    assert_eq!(HttpVersion::from_hyper(&http::Version::HTTP_2), HttpVersion::Http2);
    assert_eq!(HttpVersion::from_hyper(&http::Version::HTTP_3), HttpVersion::Http3);
    assert_eq!(HttpVersion::from_hyper(&http::Version::HTTP_09), HttpVersion::Http11);
}

#[test]
fn extract_headers_keeps_the_capture_order() {
    let headers = vec![
        RawHeader::new("sec-ch-ua-platform", b"\"Linux\""),
        RawHeader::new("sec-ch-ua-mobile", b"?0"),
        RawHeader::new("sec-ch-ua", b"\"Chromium\";v=\"120\""),
        RawHeader::new("sec-fetch-site", b"same-origin"),
        RawHeader::new("sec-fetch-mode", b"cors"),
        RawHeader::new("sec-fetch-dest", b"empty"),
        RawHeader::new("referer", b"https://example.org/"),
        RawHeader::new("accept-encoding", b"gzip"),
        RawHeader::new("accept-language", b"en"),
        RawHeader::new("accept", b"*/*"),
        RawHeader::new("user-agent", b"UA"),
        RawHeader::new("x-forwarded-for", b"10.0.0.1"),
    ];
    let extracted = extract_headers(&headers);
    let expected = vec![
        Header::new("user-agent", "UA"),
        Header::new("accept", "*/*"),
        Header::new("accept-language", "en"),
        Header::new("accept-encoding", "gzip"),
        Header::new("referer", "https://example.org/"),
        Header::new("sec-fetch-dest", "empty"),
        Header::new("sec-fetch-mode", "cors"),
        Header::new("sec-fetch-site", "same-origin"),
        Header::new("sec-ch-ua", "\"Chromium\";v=\"120\""),
        Header::new("sec-ch-ua-mobile", "?0"),
        Header::new("sec-ch-ua-platform", "\"Linux\""),
    ];
    assert_eq!(extracted, expected);
}

#[test]
fn extract_headers_skips_unreadable_values_and_takes_the_first() {
    let headers = vec![
        RawHeader::new("user-agent", &[0xe2, 0x98, 0x83]),
        RawHeader::new("accept", b"first"),
        RawHeader::new("accept", b"second"),
        RawHeader::new("referer", b""),
    ];
    let extracted = extract_headers(&headers);
    assert_eq!(extracted, vec![Header::new("accept", "first"), Header::new("referer", "")]);
    assert!(extract_headers(&[]).is_empty());
}

#[test]
fn find_header_and_text() {
    let headers = vec![RawHeader::new("a", b"1"), RawHeader::new("b", b"2"), RawHeader::new("a", b"3")];
    assert_eq!(find_header(&headers, "a").map(|h| h.value.clone()), Some(b"1".to_vec()));
    assert_eq!(find_header(&headers, "b").map(|h| h.value.clone()), Some(b"2".to_vec()));
    assert!(find_header(&headers, "c").is_none());
    assert!(find_header(&[], "a").is_none());

    assert_eq!(header_text(b"plain text\t!"), Some("plain text\t!".to_string()));
    assert_eq!(header_text(b""), Some(String::new()));
    assert_eq!(header_text(&[31]), None);
    assert_eq!(header_text(&[127]), None);
    assert_eq!(header_text(&[128]), None);
    assert_eq!(header_text(b"line\nbreak"), None);
    assert!(is_readable(&[32, 126, 9]));
    assert!(!is_readable(&[32, 0]));
    let every_visible: Vec<u8> = (32u8..127).collect();
    assert_eq!(header_text(&every_visible).unwrap().len(), 95);
}

fn ingest_request() -> IngestRequest {
    IngestRequest {
        network: NetworkSignals {
            ip: "203.0.113.9".to_string(),
            ja3: Some("j3".to_string()),
            ja4: None,
            headers: vec![Header::new("User-Agent", "Test/1.0")],
            http_version: HttpVersion::Http2,
        },
        browser: BrowserSignals {
            canvas_hash: Some("test_hash".to_string()),
            webgl_hash: None,
            audio_hash: None,
            fonts: vec!["Arial".to_string()],
            plugins: vec![],
            timezone: "UTC".to_string(),
            language: "en-US".to_string(),
            screen: Some(ScreenInfo::default()),
            user_agent: "Test/1.0".to_string(),
        },
        behavioral: BehavioralSignals {
            mouse_events: vec![],
            scroll_events: vec![],
            click_events: vec![],
            timing: TimingMetrics::default(),
        },
    }
}

#[test]
fn server_signals_override_what_the_client_declared() {
    let request = ingest_request();
    let browser = request.browser.clone();
    let behavioral = request.behavioral.clone();
    let bundle = request.merge_server_signals(
        "127.0.0.1".to_string(),
        HttpVersion::Http11,
        vec![Header::new("user-agent", "Real/2.0"), Header::new("accept", "*/*")],
    );
    assert_eq!(bundle.network.ip, "127.0.0.1");
    assert_eq!(bundle.network.http_version, HttpVersion::Http11);
    assert_eq!(
        bundle.network.headers,
        vec![
            Header::new("User-Agent", "Test/1.0"),
            Header::new("user-agent", "Real/2.0"),
            Header::new("accept", "*/*"),
        ]
    );
    assert_eq!(bundle.network.ja3, Some("j3".to_string()));
    assert_eq!(bundle.network.ja4, None);
    assert_eq!(bundle.browser, browser);
    assert_eq!(bundle.behavioral, behavioral);
}

#[test]
fn merging_cuts_oversized_event_lists() {
    let mut request = ingest_request();
    request.behavioral.mouse_events = (0..1500u64)
        .map(|i| MouseEvent { timestamp_ms: i, x: 0, y: 0, event_type: MouseEventType::Move })
        .collect();
    request.behavioral.timing.load_time_ms = Some(12);
    let bundle = request.merge_server_signals("127.0.0.1".to_string(), HttpVersion::Http2, vec![]);
    assert!(bundle.behavioral.is_within_bounds());
    assert_eq!(bundle.behavioral.mouse_events.len(), 1000);
    assert_eq!(bundle.behavioral.mouse_events[0].timestamp_ms, 0);
    assert_eq!(bundle.behavioral.mouse_events[999].timestamp_ms, 999);
    assert_eq!(bundle.behavioral.timing.load_time_ms, Some(12));
}

#[test]
fn ingest_response_for_a_new_session() {
    let response = IngestResponse::new_session("id-1".to_string(), "2024-01-01T00:00:00+00:00".to_string());
    assert_eq!(response.session_id, "id-1");
    assert!(response.is_new);
    assert_eq!(response.timestamp, "2024-01-01T00:00:00+00:00");
}

#[test]
fn security_headers_are_the_six_hardening_headers() {
    let headers = security_headers();
    let expected = vec![
        Header::new("strict-transport-security", "max-age=31536000; includeSubDomains; preload"),
        Header::new("x-content-type-options", "nosniff"),
        Header::new("x-frame-options", "DENY"),
        Header::new("content-security-policy", "default-src 'none'; frame-ancestors 'none'"),
        Header::new("x-xss-protection", "1; mode=block"),
        Header::new("referrer-policy", "no-referrer"),
    ];
    assert_eq!(headers, expected);
}

#[test]
fn session_cache_keys_and_time_to_live() {
    assert_eq!(SessionCache::new(None).ttl_seconds(), 3600);
    assert_eq!(SessionCache::new(Some(10)).ttl_seconds(), 10);
    assert_eq!(
        SessionCache::key_for("6f9619ff-8b86-d011-b42d-00c04fc964ff"),
        "session:6f9619ff-8b86-d011-b42d-00c04fc964ff"
    );
}
