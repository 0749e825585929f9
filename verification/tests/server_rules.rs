use zcash_verifier::challenge::{expiry_iso8601, now_iso8601, DEFAULT_EXPIRY_DAYS};
use zcash_verifier::cli::{build_challenge, cli_registrations, encode_unified_address, normalize_platform, shown_address};
use zcash_verifier::orchard_proof::{orchard_account, prove_orchard};
use zcash_verifier::server::{
    badge_from_verification, check_submission, combined_challenge, default_lwd_url, default_network,
    normalize_username, parse_usernames, platform_challenge, registration_error, registration_message,
    registration_platforms, valid_platforms, validate_platform, verified_message, verify_proof_at, verify_submission,
    verify_submission_at,
};
use zcash_verifier::{BadgeTier, Error, VerificationResult};

const TEST_SEED: &str = "abandon abandon abandon abandon abandon abandon abandon abandon abandon abandon abandon about";

#[test]
fn defaults() {
    assert_eq!(default_network(), "main");
    assert_eq!(default_lwd_url("main"), "https://zec.rocks:443");
    assert_eq!(default_lwd_url("test"), "https://testnet.zec.rocks:443");
    assert_eq!(valid_platforms(), ["x", "bluesky", "zcashforum"]);
}

#[test]
fn usernames_are_normalized() {
    assert_eq!(normalize_username("@Alice"), "alice");
    assert_eq!(normalize_username("B@b@"), "bb");
    assert_eq!(normalize_username("ÉVE"), "éve");
    assert_eq!(normalize_platform(&Some("X".to_string())), Some("x".to_string()));
}

#[test]
fn platforms_are_validated() {
    assert_eq!(validate_platform("x"), Ok(()));
    assert_eq!(validate_platform("zcashforum"), Ok(()));
    assert_eq!(
        validate_platform("discord"),
        Err("Invalid platform 'discord'. Valid: [\"x\", \"bluesky\", \"zcashforum\"]".to_string())
    );
}

#[test]
fn registrations_skip_blank_usernames() {
    let r = registration_platforms(&Some("@Alice".to_string()), &Some("  ".to_string()), &Some("Bob.bsky.social".to_string()));
    assert_eq!(r, vec![("x".to_string(), "alice".to_string()), ("bluesky".to_string(), "bob.bsky.social".to_string())]);
    assert_eq!(combined_challenge(&r), "x:alice|bluesky:bob.bsky.social");
    assert!(registration_platforms(&None, &None, &None).is_empty());
    let c = cli_registrations(&Some("".to_string()), &Some("@Z".to_string()), &None);
    assert_eq!(c, vec![("x".to_string(), "".to_string()), ("zcashforum".to_string(), "z".to_string())]);
}

#[test]
fn challenges_and_messages() {
    assert_eq!(platform_challenge("x", "alice"), "x:alice");
    assert_eq!(build_challenge("c", &Some("x".to_string()), &Some("a".to_string())), "x:a");
    assert_eq!(build_challenge("c", &Some("x".to_string()), &None), "c");
    assert_eq!(build_challenge("", &None, &None), "");
    assert_eq!(registration_error("x", "a", "boom"), "x:a — boom");
    assert_eq!(
        registration_message(2, &vec![]),
        "Registered 2 badge(s). Install the Chrome extension to see them on social platforms."
    );
    assert_eq!(
        registration_message(1, &vec!["a".to_string(), "b".to_string()]),
        "Registered 1 badge(s). Some platforms failed: a; b"
    );
}

#[test]
fn lookup_usernames_are_split_and_trimmed() {
    assert_eq!(parse_usernames("a, b ,c"), vec!["a", "b", "c"]);
    assert_eq!(parse_usernames(""), vec![""]);
    assert_eq!(parse_usernames("x,,y,"), vec!["x", "", "y", ""]);
}

fn orchard_proof(challenge: &str) -> zcash_verifier::OwnershipProof {
    let acct = orchard_account(TEST_SEED, 0, "test").unwrap().unwrap();
    prove_orchard(&acct, "test", 150 * 100_000_000, 10, challenge, "t".to_string(), "2999-01-01T00:00:00+00:00".to_string())
}

#[test]
fn submissions_are_checked_before_verification() {
    let p = orchard_proof("x:alice");
    assert_eq!(check_submission(&p, "x", "alice"), Ok(()));
    assert_eq!(
        check_submission(&p, "x", "bob"),
        Err("Challenge mismatch: proof has 'x:alice' but expected 'x:bob'".to_string())
    );
    assert!(check_submission(&p, "myspace", "alice").unwrap_err().starts_with("Invalid platform 'myspace'"));
    let mut q = p.clone();
    q.proof_type = "sapling".to_string();
    assert_eq!(check_submission(&q, "x", "alice"), Err("Unknown proof type: sapling".to_string()));
    let mut q = p.clone();
    q.challenge = String::new();
    assert_eq!(
        check_submission(&q, "bluesky", "anyone"),
        Err("Challenge mismatch: proof has '' but expected 'bluesky:anyone'".to_string())
    );
}

/// The instant of an RFC 3339 text, as the clock reports instants.
fn instant(text: &str) -> (i64, u32) {
    let t = chrono::DateTime::parse_from_rfc3339(text).unwrap();
    (t.timestamp(), t.timestamp_subsec_nanos())
}

#[test]
fn a_valid_submission_earns_its_badge() {
    let p = orchard_proof("x:alice");
    let now = instant("2998-12-15T00:00:00+00:00");
    let badge = verify_submission_at(&p, "x", "alice", now).unwrap().unwrap();
    assert_eq!(badge.platform, "x");
    assert_eq!(badge.username, "alice");
    assert_eq!(badge.badge_tier, 3);
    assert_eq!(badge.badge_name, "≥100 ZEC");
    assert_eq!(badge.badge_image, "badge_100zec.png");
    assert!(badge.verified);
    assert_eq!(badge.expires_at, "2999-01-01T00:00:00+00:00");
    assert_eq!(verified_message(&badge.badge_name), "Proof verified! Badge: ≥100 ZEC");
    assert_eq!(
        verify_submission_at(&p, "x", "bob", now).unwrap().unwrap_err(),
        "Challenge mismatch: proof has 'x:alice' but expected 'x:bob'"
    );
    // exactly 30 days ahead is still within the period
    assert!(verify_submission_at(&p, "x", "alice", instant("2998-12-02T00:00:00+00:00")).unwrap().is_ok());
}

#[test]
fn a_submission_expiring_beyond_thirty_days_earns_nothing() {
    let p = orchard_proof("x:alice");
    assert_eq!(
        verify_submission_at(&p, "x", "alice", instant("2998-12-01T23:59:59+00:00")).unwrap().unwrap_err(),
        "Proof expires more than 30 days from now"
    );
    assert_eq!(
        verify_submission(&p, "x", "alice").unwrap().unwrap_err(),
        "Proof expires more than 30 days from now"
    );
}

#[test]
fn an_expired_submission_earns_nothing() {
    let p = orchard_proof("x:alice");
    assert_eq!(
        verify_submission_at(&p, "x", "alice", instant("2999-01-01T00:00:01+00:00")).unwrap().unwrap_err(),
        "Proof invalid: Proof has expired"
    );
}

#[test]
fn a_fresh_submission_earns_its_badge_now() {
    let acct = orchard_account(TEST_SEED, 0, "test").unwrap().unwrap();
    let expires = expiry_iso8601(DEFAULT_EXPIRY_DAYS).unwrap();
    let p = prove_orchard(&acct, "test", 15 * 100_000_000, 10, "zcashforum:zoe", now_iso8601(), expires.clone());
    let badge = verify_submission(&p, "zcashforum", "zoe").unwrap().unwrap();
    assert_eq!(badge.badge_name, "≥10 ZEC");
    assert_eq!(badge.expires_at, expires);
    let mut q = p.clone();
    q.challenge = String::new();
    assert_eq!(
        verify_submission(&q, "zcashforum", "zoe").unwrap().unwrap_err(),
        "Challenge mismatch: proof has '' but expected 'zcashforum:zoe'"
    );
}

#[test]
fn verification_at_an_instant() {
    let p = orchard_proof("x:alice");
    let r = verify_proof_at(&p, instant("2998-12-15T00:00:00+00:00")).unwrap().unwrap();
    assert!(r.is_valid);
    let r = verify_proof_at(&p, instant("2999-01-01T00:00:00.000000001+00:00")).unwrap().unwrap();
    assert_eq!(r.message, "Proof has expired");
    let r = verify_proof_at(&p, instant("2999-01-01T00:00:00+00:00")).unwrap().unwrap();
    assert!(r.is_valid);
}

#[test]
fn refused_verifications_give_reasons() {
    let p = orchard_proof("");
    let invalid = VerificationResult {
        is_valid: false,
        badge_tier: BadgeTier::Holder,
        address: String::new(),
        block_height: 0,
        message: "Proof has expired".to_string(),
    };
    assert_eq!(badge_from_verification(&p, "x", "a", Ok(invalid)).unwrap_err(), "Proof invalid: Proof has expired");
    assert_eq!(
        badge_from_verification(&p, "x", "a", Err(Error::Verify("Invalid FVK bytes".to_string()))).unwrap_err(),
        "Verification error: Verification error: Invalid FVK bytes"
    );
}

#[test]
fn unified_addresses() {
    let acct = orchard_account(TEST_SEED, 0, "test").unwrap().unwrap();
    let hex_addr = hex::encode(acct.address);
    let main = encode_unified_address(&hex_addr, "main").unwrap();
    let test = encode_unified_address(&hex_addr, "test").unwrap();
    assert!(main.starts_with("u1"));
    assert!(test.starts_with("utest1"));
    assert_eq!(encode_unified_address("abcd", "main"), None);
    assert_eq!(shown_address(&hex_addr, "main"), main);
    assert_eq!(shown_address("abcd", "main"), "abcd");
    assert_eq!(encode_unified_address("zz", "main"), None);
}
