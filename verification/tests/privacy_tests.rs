use scrybe::error::ScrybeError;
use scrybe::privacy::{hash_ip, validate_no_pii, ConsentStatus, DataSubjectRight};

#[test]
fn privacy_test_hash_ip_deterministic() {
    let salt = b"test-salt";
    let hash1 = hash_ip("192.168.1.1", salt);
    let hash2 = hash_ip("192.168.1.1", salt);
    assert_eq!(hash1, hash2, "IP hashes should be deterministic");
}

#[test]
fn privacy_test_hash_ip_different_salts() {
    let hash1 = hash_ip("192.168.1.1", b"salt1");
    let hash2 = hash_ip("192.168.1.1", b"salt2");
    assert_ne!(hash1, hash2, "Different salts should produce different hashes");
}

#[test]
fn privacy_test_hash_ip_different_ips() {
    let salt = b"test-salt";
    let hash1 = hash_ip("192.168.1.1", salt);
    let hash2 = hash_ip("192.168.1.2", salt);
    assert_ne!(hash1, hash2, "Different IPs should produce different hashes");
}

#[test]
fn ip_test_hash_ip_deterministic() {
    let ip = "192.168.1.1";
    let salt = b"test-salt";

    let hash1 = hash_ip(ip, salt);
    let hash2 = hash_ip(ip, salt);

    assert_eq!(hash1, hash2);
    assert_eq!(hash1.len(), 64); // SHA-256 hex = 64 chars
}

#[test]
fn ip_test_hash_ip_different_ips() {
    let salt = b"test-salt";

    let hash1 = hash_ip("192.168.1.1", salt);
    let hash2 = hash_ip("192.168.1.2", salt);

    assert_ne!(hash1, hash2);
}

#[test]
fn ip_test_hash_ip_different_salts() {
    let hash1 = hash_ip("192.168.1.1", b"salt1");
    let hash2 = hash_ip("192.168.1.1", b"salt2");

    assert_ne!(hash1, hash2);
}

#[test]
fn hash_ip_is_sha256_of_address_then_salt() {
    // SHA-256("abc")
    let expected = "ba7816bf8f01cfea414140de5dae2223b00361a396177a9cb410ff61f20015ad";
    assert_eq!(hash_ip("abc", b""), expected);
    assert_eq!(hash_ip("a", b"bc"), expected);
    assert_eq!(hash_ip("", b"abc"), expected);
    // SHA-256("")
    assert_eq!(
        hash_ip("", b""),
        "e3b0c44298fc1c149afbf4c8996fb92427ae41e4649b934ca495991b7852b855"
    );
}

#[test]
fn hash_ip_is_lower_case_hex() {
    let hash = hash_ip("2001:db8::1", b"salt");
    assert_eq!(hash.len(), 64);
    assert!(hash.chars().all(|c| c.is_ascii_digit() || ('a'..='f').contains(&c)));
}

#[test]
fn test_validate_no_pii_clean_data() {
    assert!(validate_no_pii("Mozilla/5.0").is_ok());
    assert!(validate_no_pii("en-US").is_ok());
}

#[test]
fn test_validate_no_pii_detects_email() {
    let result = validate_no_pii("user@example.com");
    assert!(result.is_err());
}

#[test]
fn test_validate_no_pii_detects_phone() {
    let result = validate_no_pii("1234567890");
    assert!(result.is_err());
}

#[test]
fn validate_no_pii_reports_what_it_found() {
    match validate_no_pii("user@example.com") {
        Err(ScrybeError::ValidationError { field, expected, actual }) => {
            assert_eq!(field, "data");
            assert_eq!(expected, "no PII");
            assert_eq!(actual, "potential email address detected");
        }
        _ => panic!("expected a validation error"),
    }
    match validate_no_pii("call 12345 67890") {
        Err(ScrybeError::ValidationError { field, expected, actual }) => {
            assert_eq!(field, "data");
            assert_eq!(expected, "no PII");
            assert_eq!(actual, "potential phone number detected");
        }
        _ => panic!("expected a validation error"),
    }
}

#[test]
fn validate_no_pii_edges() {
    // an @ alone or a dot alone is no e-mail address
    assert!(validate_no_pii("user@host").is_ok());
    assert!(validate_no_pii("example.com").is_ok());
    // nine digits pass, ten do not
    assert!(validate_no_pii("123456789").is_ok());
    assert!(validate_no_pii("1234567890").is_err());
    assert!(validate_no_pii("1a2b3c4d5e6f7g8h9i0j").is_err());
    // digits of other scripts count as numeric
    assert!(validate_no_pii("\u{661}\u{662}\u{663}\u{664}\u{665}\u{666}\u{667}\u{668}\u{669}\u{660}").is_err());
    // the e-mail finding comes first
    match validate_no_pii("1234567890@example.com") {
        Err(ScrybeError::ValidationError { actual, .. }) => {
            assert_eq!(actual, "potential email address detected")
        }
        _ => panic!("expected a validation error"),
    }
    assert!(validate_no_pii("").is_ok());
}

#[test]
fn consent_and_rights_compare() {
    assert_eq!(ConsentStatus::Given, ConsentStatus::Given);
    assert_ne!(ConsentStatus::Given, ConsentStatus::Withdrawn);
    assert_ne!(ConsentStatus::NotGiven, ConsentStatus::Withdrawn);
    assert_eq!(DataSubjectRight::Erasure, DataSubjectRight::Erasure);
    assert_ne!(DataSubjectRight::Access, DataSubjectRight::Objection);
    assert_ne!(DataSubjectRight::Rectification, DataSubjectRight::Restriction);
    assert_ne!(DataSubjectRight::Portability, DataSubjectRight::Access);
}
