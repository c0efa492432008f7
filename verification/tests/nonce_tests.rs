use scrybe::nonce::{NonceStatus, NonceStore, NonceValidator};

#[test]
fn check_and_mark_accepts_a_nonce_once() {
    let mut store = NonceStore::new();
    assert_eq!(store.check_and_mark("nonce:abc", 1_000, 300), NonceStatus::New);
    assert_eq!(store.check_and_mark("nonce:abc", 1_000, 300), NonceStatus::AlreadyExists);
    assert_eq!(store.check_and_mark("nonce:abc", 1_001, 300), NonceStatus::AlreadyExists);
}

#[test]
fn two_racers_see_one_new_and_one_used() {
    // whichever of two callers the store serves first, exactly one is told "new"
    for first_caller in 0..2 {
        let mut store = NonceStore::new();
        let mut answers = [NonceStatus::AlreadyExists, NonceStatus::AlreadyExists];
        answers[first_caller] = store.check_and_mark("n", 50, 300);
        answers[1 - first_caller] = store.check_and_mark("n", 50, 300);
        let new = answers.iter().filter(|s| **s == NonceStatus::New).count();
        let used = answers.iter().filter(|s| **s == NonceStatus::AlreadyExists).count();
        assert_eq!(new, 1);
        assert_eq!(used, 1);
        assert_eq!(answers[first_caller], NonceStatus::New);
    }
}

#[test]
fn marks_expire_with_their_time_to_live() {
    let mut store = NonceStore::new();
    assert_eq!(store.check_and_mark("k", 0, 300), NonceStatus::New);
    assert!(store.contains("k", 0));
    assert!(store.contains("k", 299_999));
    assert!(!store.contains("k", 300_000));
    assert_eq!(store.check_and_mark("k", 299_999, 300), NonceStatus::AlreadyExists);
    assert_eq!(store.check_and_mark("k", 300_000, 300), NonceStatus::New);
    // the new mark lives for its own time to live
    assert!(store.contains("k", 599_999));
    assert!(!store.contains("k", 600_000));
}

#[test]
fn a_used_nonce_keeps_its_first_expiry() {
    let mut store = NonceStore::new();
    assert_eq!(store.check_and_mark("k", 0, 10), NonceStatus::New);
    assert_eq!(store.check_and_mark("k", 9_000, 10), NonceStatus::AlreadyExists);
    assert!(store.contains("k", 9_999));
    assert!(!store.contains("k", 10_000));
}

#[test]
fn marking_one_nonce_leaves_others_alone() {
    let mut store = NonceStore::new();
    assert_eq!(store.check_and_mark("a", 0, 300), NonceStatus::New);
    assert!(!store.contains("b", 0));
    assert_eq!(store.check_and_mark("b", 0, 300), NonceStatus::New);
    assert_eq!(store.check_and_mark("a", 1, 300), NonceStatus::AlreadyExists);
    assert_eq!(store.check_and_mark("", 1, 300), NonceStatus::New);
    assert_eq!(store.check_and_mark("", 1, 300), NonceStatus::AlreadyExists);
}

#[test]
fn contains_marks_nothing() {
    let mut store = NonceStore::new();
    assert!(!store.contains("k", 5));
    assert!(!store.contains("k", 5));
    assert_eq!(store.check_and_mark("k", 5, 1), NonceStatus::New);
}

#[test]
fn store_handles_extreme_times() {
    let mut store = NonceStore::new();
    assert_eq!(store.check_and_mark("k", i64::MAX, u64::MAX), NonceStatus::New);
    assert_eq!(store.check_and_mark("k", i64::MAX, u64::MAX), NonceStatus::AlreadyExists);
    assert_eq!(store.check_and_mark("m", i64::MIN, 0), NonceStatus::New);
    // a time to live of zero marks nothing that lasts
    assert_eq!(store.check_and_mark("m", i64::MIN, 0), NonceStatus::New);
}

#[test]
fn validator_defaults_to_five_minutes() {
    assert_eq!(NonceValidator::new(None).ttl_seconds(), 300);
    assert_eq!(NonceValidator::new(Some(60)).ttl_seconds(), 60);
}

#[test]
fn validator_keys_nonces() {
    assert_eq!(NonceValidator::key_for("unique-nonce-123"), "nonce:unique-nonce-123");
    assert_eq!(NonceValidator::key_for(""), "nonce:");
}

#[test]
fn validator_passes_each_nonce_once() {
    let validator = NonceValidator::new(None);
    let mut store = NonceStore::new();
    assert_eq!(validator.was_used(&store, "unique-nonce-123", 0).unwrap(), false);
    assert_eq!(validator.validate_nonce(&mut store, "unique-nonce-123", 0).unwrap(), true);
    assert_eq!(validator.was_used(&store, "unique-nonce-123", 0).unwrap(), true);
    assert_eq!(validator.validate_nonce(&mut store, "unique-nonce-123", 1).unwrap(), false);
    assert_eq!(validator.validate_nonce(&mut store, "another", 1).unwrap(), true);
    // under its key in the store
    assert!(store.contains("nonce:unique-nonce-123", 0));
    assert!(!store.contains("unique-nonce-123", 0));
    // after five minutes the nonce has lapsed
    assert_eq!(validator.validate_nonce(&mut store, "unique-nonce-123", 300_000).unwrap(), true);
}

#[test]
fn store_answers_translate() {
    assert!(NonceValidator::is_fresh(NonceStatus::New));
    assert!(!NonceValidator::is_fresh(NonceStatus::AlreadyExists));
}

#[test]
fn purge_drops_only_what_has_expired() {
    let mut store = NonceStore::new();
    store.check_and_mark("short", 0, 1);
    store.check_and_mark("long", 0, 300);
    store.check_and_mark("edge", 0, 2);
    store.purge_expired(2_000);
    // what was marked at the time of the purge, or later, still is
    assert!(!store.contains("short", 2_000));
    assert!(!store.contains("edge", 2_000));
    assert!(store.contains("long", 2_000));
    assert!(store.contains("long", 299_999));
    assert!(!store.contains("long", 300_000));
    assert_eq!(store.check_and_mark("long", 2_000, 300), NonceStatus::AlreadyExists);
    assert_eq!(store.check_and_mark("short", 2_000, 300), NonceStatus::New);
    // a purge of an empty store, and a purge that finds nothing
    NonceStore::new().purge_expired(0);
    store.purge_expired(i64::MIN);
    assert!(store.contains("long", 2_000));
    store.purge_expired(i64::MAX);
    assert!(!store.contains("long", 2_000));
}
