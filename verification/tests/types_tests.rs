use scrybe::types::behavioral::{
    BehavioralSignals, ClickEvent, MouseButton, MouseEvent, MouseEventType, ScrollEvent,
    TimingMetrics, MAX_CLICK_EVENTS, MAX_MOUSE_EVENTS, MAX_SCROLL_EVENTS,
};
use scrybe::types::browser::{BrowserSignals, ScreenInfo};
use scrybe::types::network::{Header, HttpVersion, NetworkSignals};
use scrybe::types::session::{is_valid_fingerprint_hash, Fingerprint, FingerprintComponents};

#[test]
fn test_mouse_event_creation() {
    let event = MouseEvent { timestamp_ms: 100, x: 50, y: 75, event_type: MouseEventType::Move };

    assert_eq!(event.timestamp_ms, 100);
    assert_eq!(event.x, 50);
    assert_eq!(event.y, 75);
    assert_eq!(event.event_type, MouseEventType::Move);
}

#[test]
fn test_click_event_with_button() {
    let event = ClickEvent { timestamp_ms: 200, x: 100, y: 150, button: MouseButton::Left };

    assert_eq!(event.button, MouseButton::Left);
}

#[test]
fn test_timing_metrics_default() {
    let timing = TimingMetrics::default();
    assert!(timing.dom_content_loaded_ms.is_none());
    assert!(timing.load_time_ms.is_none());
}

#[test]
fn timing_metrics_default_has_nothing_measured() {
    let timing = TimingMetrics::default();
    assert!(timing.time_to_first_byte_ms.is_none());
    assert!(timing.time_to_first_interaction_ms.is_none());
}

#[test]
fn test_bounded_collection_constants() {
    // Verify DoS protection limits are reasonable
    assert!(MAX_MOUSE_EVENTS <= 1000);
    assert!(MAX_SCROLL_EVENTS <= 100);
    assert!(MAX_CLICK_EVENTS <= 100);
}

fn mouse_events(n: usize) -> Vec<MouseEvent> {
    (0..n)
        .map(|i| MouseEvent { timestamp_ms: i as u64, x: 1, y: 2, event_type: MouseEventType::Move })
        .collect()
}

fn scroll_events(n: usize) -> Vec<ScrollEvent> {
    (0..n).map(|i| ScrollEvent { timestamp_ms: i as u64, x: 0, y: 0, delta_x: 1, delta_y: 1 }).collect()
}

fn click_events(n: usize) -> Vec<ClickEvent> {
    (0..n)
        .map(|i| ClickEvent { timestamp_ms: i as u64, x: 0, y: 0, button: MouseButton::Other(4) })
        .collect()
}

#[test]
fn behavioral_signals_accept_lists_at_their_bounds() {
    let signals = BehavioralSignals::new(
        mouse_events(1000),
        scroll_events(100),
        click_events(100),
        TimingMetrics::default(),
    )
    .unwrap();
    assert!(signals.is_within_bounds());
    assert_eq!(signals.mouse_events.len(), 1000);
    assert_eq!(signals.scroll_events.len(), 100);
    assert_eq!(signals.click_events.len(), 100);
}

#[test]
fn behavioral_signals_reject_oversized_lists() {
    let timing = TimingMetrics::default;
    assert!(BehavioralSignals::new(mouse_events(1001), vec![], vec![], timing()).is_none());
    assert!(BehavioralSignals::new(vec![], scroll_events(101), vec![], timing()).is_none());
    assert!(BehavioralSignals::new(vec![], vec![], click_events(101), timing()).is_none());
    assert!(BehavioralSignals::new(vec![], vec![], vec![], timing()).is_some());
}

#[test]
fn behavioral_signals_truncate_keeps_the_earliest() {
    let mut signals = BehavioralSignals {
        mouse_events: mouse_events(1200),
        scroll_events: scroll_events(50),
        click_events: click_events(101),
        timing: TimingMetrics::default(),
    };
    assert!(!signals.is_within_bounds());
    signals.truncate_to_bounds();
    assert!(signals.is_within_bounds());
    assert_eq!(signals.mouse_events.len(), 1000);
    assert_eq!(signals.mouse_events[999].timestamp_ms, 999);
    assert_eq!(signals.scroll_events.len(), 50);
    assert_eq!(signals.click_events.len(), 100);
    assert_eq!(signals.click_events[0].timestamp_ms, 0);
}

#[test]
fn test_screen_info_validation() {
    // Valid screen info
    let screen = ScreenInfo::new(1920, 1080, 1920, 1080, 24, 1.0f32.to_bits());
    assert!(screen.is_some());

    // Zero width
    let screen = ScreenInfo::new(0, 1080, 0, 1080, 24, 1.0f32.to_bits());
    assert!(screen.is_none());

    // Unrealistic dimensions
    let screen = ScreenInfo::new(20000, 1080, 20000, 1080, 24, 1.0f32.to_bits());
    assert!(screen.is_none());

    // Invalid color depth
    let screen = ScreenInfo::new(1920, 1080, 1920, 1080, 0, 1.0f32.to_bits());
    assert!(screen.is_none());

    // Invalid pixel ratio
    let screen = ScreenInfo::new(1920, 1080, 1920, 1080, 24, 0.0f32.to_bits());
    assert!(screen.is_none());
}

#[test]
fn test_screen_info_default() {
    let screen = ScreenInfo::default();
    assert_eq!(screen.width, 1920);
    assert_eq!(screen.height, 1080);
    assert_eq!(screen.color_depth, 24);
}

#[test]
fn test_retina_display() {
    let screen = ScreenInfo::new(2880, 1800, 2880, 1800, 24, 2.0f32.to_bits());
    assert!(screen.is_some());
    let screen = screen.unwrap();
    assert_eq!(f32::from_bits(screen.pixel_ratio_bits), 2.0);
}

#[test]
fn screen_info_default_ratio_is_one() {
    let screen = ScreenInfo::default();
    assert_eq!(f32::from_bits(screen.pixel_ratio_bits), 1.0);
    assert_eq!(screen.avail_width, 1920);
    assert_eq!(screen.avail_height, 1080);
}

/// What the validation of a pixel ratio amounts to on the number itself.
fn ratio_passes(ratio: f32) -> bool {
    !(ratio <= 0.0 || ratio > 5.0)
}

#[test]
fn screen_info_pixel_ratio_follows_the_number() {
    let ratios: Vec<f32> = vec![
        0.0,
        -0.0,
        f32::MIN_POSITIVE,
        1.0e-45,
        0.5,
        1.0,
        1.5,
        2.0,
        3.0,
        4.999_999_5,
        5.0,
        5.000_000_5,
        6.0,
        1.0e30,
        f32::MAX,
        f32::INFINITY,
        -1.0,
        -5.0,
        -1.0e-45,
        f32::MIN,
        f32::NEG_INFINITY,
        f32::NAN,
        -f32::NAN,
    ];
    for ratio in ratios {
        let screen = ScreenInfo::new(1920, 1080, 1920, 1080, 24, ratio.to_bits());
        assert_eq!(screen.is_some(), ratio_passes(ratio), "ratio {}", ratio);
    }
}

#[test]
fn screen_info_bounds() {
    let one = 1.0f32.to_bits();
    assert!(ScreenInfo::new(1, 1, 0, 0, 1, one).is_some());
    assert!(ScreenInfo::new(10000, 10000, 0, 0, 48, one).is_some());
    assert!(ScreenInfo::new(10001, 1, 0, 0, 24, one).is_none());
    assert!(ScreenInfo::new(1, 10001, 0, 0, 24, one).is_none());
    assert!(ScreenInfo::new(1, 0, 0, 0, 24, one).is_none());
    assert!(ScreenInfo::new(1, 1, 0, 0, 49, one).is_none());
    let screen = ScreenInfo::new(800, 600, 790, 580, 32, one).unwrap();
    assert_eq!(screen.avail_width, 790);
    assert_eq!(screen.avail_height, 580);
    assert_eq!(screen.color_depth, 32);
}

#[test]
fn test_header_creation() {
    let header = Header::new("User-Agent", "Mozilla/5.0");
    assert_eq!(header.name, "User-Agent");
    assert_eq!(header.value, "Mozilla/5.0");
}

#[test]
fn test_http_version_default() {
    let version = HttpVersion::default();
    assert_eq!(version, HttpVersion::Http11);
}

#[test]
fn network_signals_compare_by_value() {
    let a = NetworkSignals {
        ip: "127.0.0.1".to_string(),
        ja3: Some("abc123".to_string()),
        ja4: None,
        headers: vec![Header::new("User-Agent", "Test")],
        http_version: HttpVersion::Http2,
    };
    let b = a.clone();
    assert_eq!(a, b);
}

#[test]
fn browser_signals_compare_by_value() {
    let a = BrowserSignals {
        canvas_hash: Some("abc123".to_string()),
        webgl_hash: None,
        audio_hash: None,
        fonts: vec!["Arial".to_string(), "Helvetica".to_string()],
        plugins: vec![],
        timezone: "America/New_York".to_string(),
        language: "en-US".to_string(),
        screen: Some(ScreenInfo::default()),
        user_agent: "Mozilla/5.0".to_string(),
    };
    let b = a.clone();
    assert_eq!(a, b);
}

#[test]
fn test_fingerprint_validation() {
    let valid_hash = "a".repeat(64);
    let fingerprint = Fingerprint::new(valid_hash.clone(), FingerprintComponents::default(), 95);
    assert!(fingerprint.is_some());

    // Invalid hash length
    let fingerprint = Fingerprint::new("abc123".to_string(), FingerprintComponents::default(), 95);
    assert!(fingerprint.is_none());

    // Invalid confidence
    let fingerprint = Fingerprint::new(valid_hash.clone(), FingerprintComponents::default(), 150);
    assert!(fingerprint.is_none());

    // Invalid hex characters
    let invalid_hash = "z".repeat(64);
    let fingerprint = Fingerprint::new(invalid_hash, FingerprintComponents::default(), 95);
    assert!(fingerprint.is_none());
}

#[test]
fn test_fingerprint_components_default() {
    let components = FingerprintComponents::default();
    assert!(components.canvas.is_none());
    assert!(components.webgl.is_none());
    assert!(components.audio.is_none());
}

#[test]
fn fingerprint_components_default_has_nothing_present() {
    let components = FingerprintComponents::default();
    assert!(components.fonts.is_none());
    assert!(components.plugins.is_none());
    assert!(components.screen.is_none());
    assert!(components.network.is_none());
}

#[test]
fn fingerprint_keeps_what_it_was_built_from() {
    let hash = "0123456789abcdef".repeat(4);
    let components = FingerprintComponents {
        canvas: Some("h1".to_string()),
        ..FingerprintComponents::default()
    };
    let fingerprint = Fingerprint::new(hash.clone(), components.clone(), 30).unwrap();
    assert_eq!(fingerprint.hash(), &hash);
    assert_eq!(fingerprint.components(), &components);
    assert_eq!(fingerprint.confidence(), 30);
    let copy = fingerprint.clone();
    assert_eq!(copy, fingerprint);
}

#[test]
fn fingerprint_confidence_bounds() {
    let hash = "f".repeat(64);
    assert!(Fingerprint::new(hash.clone(), FingerprintComponents::default(), 0).is_some());
    assert!(Fingerprint::new(hash.clone(), FingerprintComponents::default(), 100).is_some());
    assert!(Fingerprint::new(hash.clone(), FingerprintComponents::default(), 101).is_none());
    assert!(Fingerprint::new(hash, FingerprintComponents::default(), u32::MAX).is_none());
}

#[test]
fn fingerprint_hash_must_be_64_lower_case_hex() {
    let components = FingerprintComponents::default;
    assert!(Fingerprint::new("a".repeat(63), components(), 50).is_none());
    assert!(Fingerprint::new("a".repeat(65), components(), 50).is_none());
    assert!(Fingerprint::new(String::new(), components(), 50).is_none());
    assert!(Fingerprint::new("A".repeat(64), components(), 50).is_none());
    assert!(Fingerprint::new("g".repeat(64), components(), 50).is_none());
    assert!(Fingerprint::new(format!("{}{}", "a".repeat(63), " "), components(), 50).is_none());
    // 64 characters, but more than 64 bytes
    assert!(Fingerprint::new("\u{e9}".repeat(64), components(), 50).is_none());
    // 64 bytes, but fewer characters
    assert!(Fingerprint::new("\u{e9}".repeat(32), components(), 50).is_none());
    assert!(Fingerprint::new("0123456789abcdef".repeat(4), components(), 50).is_some());
}

#[test]
fn valid_fingerprint_hash_check() {
    assert!(is_valid_fingerprint_hash(&"0123456789abcdef".repeat(4)));
    assert!(!is_valid_fingerprint_hash(&"0123456789ABCDEF".repeat(4)));
    assert!(!is_valid_fingerprint_hash("abc"));
    assert!(!is_valid_fingerprint_hash(""));
}

#[test]
fn unrecognized_version_counts_as_http11() {
    assert_eq!(HttpVersion::or_default(None), HttpVersion::Http11);
    assert_eq!(HttpVersion::or_default(Some(HttpVersion::Http3)), HttpVersion::Http3);
    assert_eq!(HttpVersion::or_default(Some(HttpVersion::Http10)), HttpVersion::Http10);
}
