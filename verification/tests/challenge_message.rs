use zcash_verifier::challenge::{
    build_sign_message, expiry_after, expiry_iso8601, is_expired, is_expired_at, now_iso8601,
    DEFAULT_EXPIRY_DAYS,
};

#[test]
fn test_sign_message_deterministic() {
    let msg1 = build_sign_message("t1addr", 100, 3240000, "test");
    let msg2 = build_sign_message("t1addr", 100, 3240000, "test");
    assert_eq!(msg1, msg2);
    assert_eq!(msg1.len(), 32);
}

#[test]
fn test_sign_message_different_inputs() {
    let msg1 = build_sign_message("t1addr", 100, 3240000, "test");
    let msg2 = build_sign_message("t1addr", 10, 3240000, "test");
    assert_ne!(msg1, msg2);
}

#[test]
fn test_expiry() {
    let past = "2020-01-01T00:00:00+00:00";
    assert!(is_expired(past));

    let future = expiry_iso8601(7).unwrap();
    assert!(!is_expired(&future));
}

#[test]
fn sign_message_is_personalized_blake2b_of_the_preimage() {
    let expected = blake2b_simd::Params::new()
        .personal(b"ZcBadgeChallnge_")
        .hash_length(32)
        .hash(b"ZcashBadgeProof:t1addr:100:3240000:x:alice");
    assert_eq!(build_sign_message("t1addr", 100, 3240000, "x:alice"), expected.as_bytes().to_vec());
    let zero = blake2b_simd::Params::new()
        .personal(b"ZcBadgeChallnge_")
        .hash_length(32)
        .hash("ZcashBadgeProof:é:0:18446744073709551615:".as_bytes());
    assert_eq!(build_sign_message("é", 0, u64::MAX, ""), zero.as_bytes().to_vec());
}

#[test]
fn sign_message_binds_each_field() {
    let base = build_sign_message("addr", 10, 5, "x:bob");
    assert_ne!(base, build_sign_message("addr2", 10, 5, "x:bob"));
    assert_ne!(base, build_sign_message("addr", 10, 6, "x:bob"));
    assert_ne!(base, build_sign_message("addr", 10, 5, "x:bob2"));
}

#[test]
fn unreadable_expiry_counts_as_expired() {
    assert!(is_expired("not a date"));
    assert!(is_expired(""));
    assert!(!is_expired("9999-12-31T23:59:59+00:00"));
}

#[test]
fn expiry_comparison() {
    assert!(is_expired_at(None, (0, 0)));
    assert!(is_expired_at(Some((100, 5)), (100, 6)));
    assert!(is_expired_at(Some((100, 5)), (101, 0)));
    assert!(!is_expired_at(Some((100, 5)), (100, 5)));
    assert!(!is_expired_at(Some((100, 5)), (99, 999_999_999)));
}

#[test]
fn expiry_after_adds_days() {
    assert_eq!(expiry_after(0, 0, 1).unwrap(), "1970-01-02T00:00:00+00:00");
    assert_eq!(expiry_after(1_700_000_000, 0, 30).unwrap(), "2023-12-14T22:13:20+00:00");
    assert_eq!(expiry_after(0, 0, i64::MAX), None);
    assert_eq!(expiry_after(0, 0, 400_000_000), None);
}

#[test]
fn now_and_default_expiry_are_readable() {
    let now = now_iso8601();
    assert!(chrono::DateTime::parse_from_rfc3339(&now).is_ok());
    let exp = expiry_iso8601(DEFAULT_EXPIRY_DAYS).unwrap();
    assert!(!is_expired(&exp));
    assert!(exp > now);
}

#[test]
fn expiry_reads_back_as_the_instant_days_later() {
    let t = expiry_after(1_700_000_000, 123_456_789, 30).unwrap();
    assert_eq!(t, "2023-12-14T22:13:20.123456789+00:00");
    let parsed = chrono::DateTime::parse_from_rfc3339(&t).unwrap();
    assert_eq!(parsed.timestamp(), 1_700_000_000 + 30 * 86_400);
    assert_eq!(parsed.timestamp_subsec_nanos(), 123_456_789);
    assert_eq!(expiry_after(0, 500_000_000, 0).unwrap(), "1970-01-01T00:00:00.500+00:00");
    assert!(is_expired(&expiry_after(0, 0, DEFAULT_EXPIRY_DAYS).unwrap()));
}
