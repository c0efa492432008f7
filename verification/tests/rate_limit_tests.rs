use scrybe::rate_limit::{Admission, RateLimitError, RateLimitStore, RateLimiter};

#[test]
fn two_admitted_third_rejected_then_reset_after_expiry() {
    let limiter = RateLimiter::new(2, 60);
    let mut store = RateLimitStore::new();
    assert_eq!(limiter.check(&mut store, "fresh", 0), Admission::Admit);
    assert_eq!(limiter.check(&mut store, "fresh", 1), Admission::Admit);
    assert_eq!(
        limiter.check(&mut store, "fresh", 2),
        Admission::Reject { limit: 2, window_seconds: 60 }
    );
    // the window ends 60 s after the first request
    assert_eq!(
        limiter.check(&mut store, "fresh", 59_999),
        Admission::Reject { limit: 2, window_seconds: 60 }
    );
    assert_eq!(limiter.check(&mut store, "fresh", 60_000), Admission::Admit);
    assert_eq!(limiter.get_count(&store, "fresh", 60_000), 1);
}

#[test]
fn rejected_requests_still_count() {
    let limiter = RateLimiter::new(1, 60);
    let mut store = RateLimitStore::new();
    assert_eq!(limiter.check(&mut store, "id", 0), Admission::Admit);
    for n in 2..=5u64 {
        assert_eq!(
            limiter.check(&mut store, "id", 10),
            Admission::Reject { limit: 1, window_seconds: 60 }
        );
        assert_eq!(limiter.get_count(&store, "id", 10), n);
    }
}

#[test]
fn identities_are_counted_apart() {
    let limiter = RateLimiter::new(1, 60);
    let mut store = RateLimitStore::new();
    assert_eq!(limiter.check(&mut store, "10.0.0.1", 0), Admission::Admit);
    assert_eq!(limiter.check(&mut store, "10.0.0.2", 0), Admission::Admit);
    assert_ne!(limiter.check(&mut store, "10.0.0.1", 0), Admission::Admit);
    assert_eq!(limiter.get_count(&store, "10.0.0.2", 0), 1);
    assert_eq!(limiter.get_count(&store, "10.0.0.3", 0), 0);
}

#[test]
fn peek_does_not_count() {
    let limiter = RateLimiter::new(5, 60);
    let mut store = RateLimitStore::new();
    assert_eq!(limiter.get_count(&store, "id", 0), 0);
    assert_eq!(limiter.get_count(&store, "id", 0), 0);
    limiter.check(&mut store, "id", 0);
    assert_eq!(limiter.get_count(&store, "id", 0), 1);
    assert_eq!(limiter.get_count(&store, "id", 0), 1);
    // after the window the count reads as zero
    assert_eq!(limiter.get_count(&store, "id", 60_000), 0);
}

#[test]
fn reset_clears_the_counter() {
    let limiter = RateLimiter::new(1, 60);
    let mut store = RateLimitStore::new();
    limiter.check(&mut store, "id", 0);
    limiter.check(&mut store, "other", 0);
    assert_ne!(limiter.check(&mut store, "id", 1), Admission::Admit);
    limiter.reset(&mut store, "id");
    assert_eq!(limiter.get_count(&store, "id", 1), 0);
    assert_eq!(limiter.get_count(&store, "other", 1), 1);
    assert_eq!(limiter.check(&mut store, "id", 1), Admission::Admit);
    // resetting what is not there changes nothing
    limiter.reset(&mut store, "absent");
    assert_eq!(limiter.get_count(&store, "other", 1), 1);
}

#[test]
fn later_requests_do_not_extend_the_window() {
    let mut store = RateLimitStore::new();
    assert_eq!(store.increment("k", 0, 10), 1);
    assert_eq!(store.increment("k", 9_999, 10), 2);
    assert_eq!(store.peek("k", 9_999), 2);
    assert_eq!(store.peek("k", 10_000), 0);
    assert_eq!(store.increment("k", 10_000, 10), 1);
    assert_eq!(store.peek("k", 19_999), 1);
    assert_eq!(store.peek("k", 20_000), 0);
}

#[test]
fn store_increment_counts_from_one() {
    let mut store = RateLimitStore::new();
    for n in 1..=200u64 {
        assert_eq!(store.increment("ratelimit:x", 5, 60), n);
    }
    store.reset("ratelimit:x");
    assert_eq!(store.increment("ratelimit:x", 5, 60), 1);
}

#[test]
fn limiter_decides_by_count() {
    let limiter = RateLimiter::new(100, 60);
    assert_eq!(limiter.decide(0), Admission::Admit);
    assert_eq!(limiter.decide(1), Admission::Admit);
    assert_eq!(limiter.decide(100), Admission::Admit);
    assert_eq!(limiter.decide(101), Admission::Reject { limit: 100, window_seconds: 60 });
    assert_eq!(limiter.decide(u64::MAX), Admission::Reject { limit: 100, window_seconds: 60 });
    let none = RateLimiter::new(0, 1);
    assert_eq!(none.decide(1), Admission::Reject { limit: 0, window_seconds: 1 });
}

#[test]
fn limiter_settings() {
    let limiter = RateLimiter::new(7, 9);
    assert_eq!(limiter.max_requests(), 7);
    assert_eq!(limiter.window_seconds(), 9);
    let default = RateLimiter::default();
    assert_eq!(default.max_requests(), 100);
    assert_eq!(default.window_seconds(), 60);
    assert_eq!(RateLimiter::key_for("1.2.3.4"), "ratelimit:1.2.3.4");
}

#[test]
fn default_limit_admits_one_hundred_per_minute() {
    let limiter = RateLimiter::default();
    let mut store = RateLimitStore::new();
    for _ in 0..100 {
        assert_eq!(limiter.check(&mut store, "ip", 1_000), Admission::Admit);
    }
    assert_eq!(
        limiter.check(&mut store, "ip", 1_000),
        Admission::Reject { limit: 100, window_seconds: 60 }
    );
}

#[test]
fn rate_limit_error_report() {
    let err = RateLimitError::TooManyRequests;
    assert_eq!(err.status_code(), 429);
    assert_eq!(err.message(), "Rate limit exceeded");
    assert_eq!(RateLimitError::from_allowed(true), Ok(()));
    assert_eq!(RateLimitError::from_allowed(false), Err(RateLimitError::TooManyRequests));
}

#[test]
fn purge_keeps_open_windows() {
    let mut store = RateLimitStore::new();
    store.increment("a", 0, 1);
    store.increment("b", 0, 60);
    store.increment("b", 10, 60);
    store.purge_expired(1_000);
    assert_eq!(store.peek("a", 1_000), 0);
    assert_eq!(store.peek("b", 1_000), 2);
    assert_eq!(store.increment("b", 1_000, 60), 3);
    assert_eq!(store.increment("a", 1_000, 60), 1);
    store.purge_expired(60_000);
    assert_eq!(store.peek("b", 60_000), 0);
    assert_eq!(store.peek("a", 60_000), 1);
}
