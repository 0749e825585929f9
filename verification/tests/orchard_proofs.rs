use orchard::keys::{FullViewingKey, Scope};
use zcash_verifier::challenge::build_sign_message;
use zcash_verifier::orchard_proof::{
    check_orchard_proof, derive_signature_key, derive_spending_key, orchard_account, prove_orchard,
    sign_with_sk, verify_orchard, verify_orchard_at,
};
use zcash_verifier::{BadgeTier, Error};

const TEST_SEED: &str = "abandon abandon abandon abandon abandon abandon abandon abandon abandon abandon abandon about";
const FAR_FUTURE: &str = "2999-01-01T00:00:00+00:00";

#[test]
fn test_derive_spending_key() {
    let sk = derive_spending_key(TEST_SEED, 0, "test");
    assert!(sk.is_ok(), "Should derive spending key from known mnemonic");
}

#[test]
fn test_fvk_address_derivation() {
    let acct = orchard_account(TEST_SEED, 0, "test").unwrap().unwrap();
    let addr_hex = hex::encode(acct.address);
    assert!(!addr_hex.is_empty());

    // FVK roundtrip
    let fvk2 = FullViewingKey::from_bytes(&acct.fvk).unwrap();
    let addr2 = fvk2.address_at(0u64, Scope::External);
    assert_eq!(
        acct.address,
        addr2.to_raw_address_bytes(),
        "FVK roundtrip should produce same address"
    );
}

#[test]
fn test_sign_verify_roundtrip() {
    let acct = orchard_account(TEST_SEED, 0, "test").unwrap().unwrap();
    let addr_hex = hex::encode(acct.address);
    let sk_bytes_for_sig = derive_signature_key(&acct.fvk);
    let expected_key = blake2b_simd::Params::new()
        .personal(b"ZcBadgeSKDerive_")
        .hash_length(32)
        .key(&acct.fvk[..32])
        .hash(&acct.fvk);
    assert_eq!(&sk_bytes_for_sig[..], expected_key.as_bytes());

    let msg = build_sign_message(&addr_hex, 100, 3240000, "test");
    let sig = sign_with_sk(&sk_bytes_for_sig, &msg);
    let sig2 = sign_with_sk(&sk_bytes_for_sig, &msg);
    assert_eq!(sig, sig2, "Signature should be deterministic");

    // Different message should produce different signature
    let msg2 = build_sign_message(&addr_hex, 10, 3240000, "test");
    let sig3 = sign_with_sk(&sk_bytes_for_sig, &msg2);
    assert_ne!(sig, sig3);
}

#[test]
fn spending_key_matches_orchard_derivation() {
    let sk = derive_spending_key(TEST_SEED, 0, "main").unwrap();
    let seed = bip39::Mnemonic::parse(TEST_SEED).unwrap().to_seed("");
    let direct = orchard::keys::SpendingKey::from_zip32_seed(&seed, 133, zip32::AccountId::ZERO).unwrap();
    assert_eq!(&sk, direct.to_bytes());
    let test_sk = derive_spending_key(TEST_SEED, 0, "test").unwrap();
    assert_ne!(sk, test_sk);
}

#[test]
fn bad_mnemonic_is_a_key_error() {
    match derive_spending_key("abandon abandon", 0, "main") {
        Err(Error::Key(m)) => assert!(m.starts_with("Invalid mnemonic: mnemonic has an invalid word count")),
        _ => panic!("expected a key error"),
    }
    match orchard_account("", 1 << 31, "main") {
        Some(Err(Error::Key(m))) => assert!(m.starts_with("Invalid mnemonic: ")),
        _ => panic!("expected a key error"),
    }
    match derive_spending_key("", u32::MAX, "main") {
        Err(Error::Key(m)) => assert!(m.starts_with("Invalid mnemonic: ")),
        _ => panic!("expected a key error"),
    }
}

#[test]
fn account_index_beyond_zip32_gives_no_account() {
    assert!(orchard_account(TEST_SEED, 1 << 31, "main").is_none());
    assert!(orchard_account(TEST_SEED, (1 << 31) - 1, "main").unwrap().is_ok());
}

fn proof_for(balance: u64, challenge: &str) -> zcash_verifier::OwnershipProof {
    let acct = orchard_account(TEST_SEED, 0, "test").unwrap().unwrap();
    prove_orchard(&acct, "test", balance, 3_000_000, challenge, "2024-01-01T00:00:00+00:00".to_string(), FAR_FUTURE.to_string())
}

#[test]
fn orchard_proof_roundtrip_verifies() {
    let p = proof_for(2_000_000_000_000, "bluesky:carol");
    assert_eq!(p.proof_type, "orchard");
    assert_eq!(p.badge_tier, 10_000);
    assert_eq!(p.address.len(), 86);
    assert_eq!(p.proof_data.fvk.as_ref().unwrap().len(), 192);
    let r = verify_orchard(&p).unwrap().unwrap();
    assert!(r.is_valid);
    assert_eq!(r.badge_tier, BadgeTier::Zec10K);
    assert_eq!(r.message, "Valid Orchard proof — ≥10,000 ZEC (Phase 1: FVK-attested)");
}

#[test]
fn tampered_orchard_proofs_are_refused() {
    let p = proof_for(0, "x:dave");
    let mut q = p.clone();
    q.badge_tier = 10_000_000;
    let r = check_orchard_proof(&q).unwrap().unwrap();
    assert!(!r.is_valid);
    assert_eq!(r.message, "Signature verification failed");

    let mut q = p.clone();
    q.address = "00".repeat(43);
    let r = check_orchard_proof(&q).unwrap().unwrap();
    assert!(r.message.starts_with("Address mismatch: FVK derives to "));
    assert!(r.message.ends_with(&format!(" but proof claims {}", "00".repeat(43))));
}

#[test]
fn malformed_orchard_proofs_are_errors() {
    let p = proof_for(0, "");
    let mut q = p.clone();
    q.proof_data.fvk = None;
    match check_orchard_proof(&q) {
        Some(Err(Error::Verify(m))) => assert_eq!(m, "Missing FVK in Orchard proof"),
        _ => panic!(),
    }
    q.proof_data.fvk = Some("00".repeat(10));
    match check_orchard_proof(&q) {
        Some(Err(Error::Verify(m))) => assert_eq!(m, "FVK must be 96 bytes, got 10"),
        _ => panic!(),
    }
    q.proof_data.fvk = Some("ff".repeat(96));
    match check_orchard_proof(&q) {
        Some(Err(Error::Verify(m))) => assert_eq!(m, "Invalid FVK bytes"),
        _ => panic!(),
    }
    q.proof_data.fvk = Some("g0".to_string());
    match check_orchard_proof(&q) {
        Some(Err(Error::Verify(m))) => assert!(m.starts_with("Invalid FVK hex: Invalid character")),
        _ => panic!(),
    }
    let mut q = p.clone();
    q.proof_data.signature = "00".repeat(31);
    match check_orchard_proof(&q) {
        Some(Err(Error::Verify(m))) => assert_eq!(m, "Signature must be 32 bytes"),
        _ => panic!(),
    }
}

#[test]
fn expired_orchard_proof_is_invalid() {
    let mut p = proof_for(0, "");
    p.expires = "garbage".to_string();
    let r = verify_orchard(&p).unwrap().unwrap();
    assert!(!r.is_valid);
    assert_eq!(r.message, "Proof has expired");
}

/// A correctly tagged proof recording a tier too large to scale to zatoshis.
fn oversized_tier_proof(expires: &str) -> zcash_verifier::OwnershipProof {
    let mut p = proof_for(0, "x:erin");
    let acct = orchard_account(TEST_SEED, 0, "test").unwrap().unwrap();
    p.badge_tier = u64::MAX / 10;
    p.expires = expires.to_string();
    let key = derive_signature_key(&acct.fvk);
    let msg = build_sign_message(&p.address, p.badge_tier, p.block_height, &p.challenge);
    p.proof_data.signature = hex::encode(sign_with_sk(&key, &msg));
    p
}

#[test]
fn oversized_tier_of_a_valid_proof_gives_no_verdict() {
    let p = oversized_tier_proof(FAR_FUTURE);
    assert!(check_orchard_proof(&p).is_none());
    assert!(verify_orchard(&p).is_none());
}

#[test]
fn oversized_tier_of_an_expired_proof_is_just_expired() {
    let p = oversized_tier_proof("2020-01-01T00:00:00+00:00");
    let r = verify_orchard(&p).unwrap().unwrap();
    assert!(!r.is_valid);
    assert_eq!(r.message, "Proof has expired");
}

#[test]
fn orchard_verification_at_an_instant() {
    let p = proof_for(100 * 100_000_000, "x:alice");
    let expiry = chrono::DateTime::parse_from_rfc3339(FAR_FUTURE).unwrap().timestamp();
    let r = verify_orchard_at(&p, (expiry - 1, 999_999_999)).unwrap().unwrap();
    assert!(r.is_valid);
    assert_eq!(r.badge_tier, BadgeTier::Zec100);
    let r = verify_orchard_at(&p, (expiry + 1, 0)).unwrap().unwrap();
    assert_eq!(r.message, "Proof has expired");
    let p = oversized_tier_proof(FAR_FUTURE);
    assert!(verify_orchard_at(&p, (0, 0)).is_none());
}
