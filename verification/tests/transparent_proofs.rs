use secp256k1::{Secp256k1, SecretKey};
use zcash_verifier::transparent::{
    address_prefix, check_transparent_proof, prove_transparent, pubkey_to_taddr, sha256d,
    transparent_account, verify_transparent, verify_transparent_at,
};
use zcash_verifier::{BadgeTier, Error};

const KEY_ONE: &str = "0000000000000000000000000000000000000000000000000000000000000001";
const FAR_FUTURE: &str = "2999-01-01T00:00:00+00:00";

#[test]
fn test_pubkey_to_taddr() {
    // Known test vector: the private key 0x01 on secp256k1
    let secp = Secp256k1::new();
    let sk = SecretKey::from_slice(&[0u8; 31].iter().chain(&[1u8]).cloned().collect::<Vec<u8>>()).unwrap();
    let pk = secp256k1::PublicKey::from_secret_key(&secp, &sk);
    let addr_main = pubkey_to_taddr(&pk.serialize(), "main");
    assert!(addr_main.starts_with("t1"), "Expected t1 prefix, got: {}", addr_main);
    let addr_test = pubkey_to_taddr(&pk.serialize(), "test");
    assert!(addr_test.starts_with("tm"), "Expected tm prefix, got: {}", addr_test);
}

#[test]
fn prefixes_and_double_sha() {
    assert_eq!(address_prefix("test"), [0x1D, 0x25]);
    assert_eq!(address_prefix("main"), [0x1C, 0xB8]);
    assert_eq!(address_prefix("anything"), [0x1C, 0xB8]);
    let once = <sha2::Sha256 as sha2::Digest>::digest(b"abc");
    let twice = <sha2::Sha256 as sha2::Digest>::digest(once);
    assert_eq!(sha256d(b"abc").to_vec(), twice.to_vec());
    assert_ne!(sha256d(b"abc").to_vec(), once.to_vec());
}

#[test]
fn account_from_key_one() {
    let acct = transparent_account(KEY_ONE, "main").unwrap();
    assert_eq!(
        hex::encode(acct.public_key),
        "0279be667ef9dcbbac55a06295ce870b07029bfcdb2dce28d959f2815b16f81798"
    );
    assert_eq!(acct.address, pubkey_to_taddr(&acct.public_key, "main"));
    assert!(acct.address.starts_with("t1"));
}

#[test]
fn bad_secret_keys() {
    match transparent_account("zz", "main") {
        Err(Error::Key(m)) => assert!(m.starts_with("Invalid hex secret key: Invalid character")),
        _ => panic!("expected a key error"),
    }
    match transparent_account("abc", "main") {
        Err(Error::Key(m)) => assert_eq!(m, "Invalid hex secret key: Odd number of digits"),
        _ => panic!("expected a key error"),
    }
    let zero = "00".repeat(32);
    match transparent_account(&zero, "main") {
        Err(Error::Key(m)) => assert_eq!(m, "Invalid secret key: malformed or out-of-range secret key"),
        _ => panic!("expected a key error"),
    }
    match transparent_account("0102", "main") {
        Err(Error::Key(m)) => assert_eq!(m, "Invalid secret key: malformed or out-of-range secret key"),
        _ => panic!("expected a key error"),
    }
}

fn proof_for(balance: u64, challenge: &str) -> zcash_verifier::OwnershipProof {
    let acct = transparent_account(KEY_ONE, "main").unwrap();
    prove_transparent(&acct, balance, 3_240_000, challenge, "2024-01-01T00:00:00+00:00".to_string(), FAR_FUTURE.to_string())
}

#[test]
fn proof_roundtrip_verifies() {
    let p = proof_for(123 * 100_000_000, "x:alice");
    assert_eq!(p.proof_type, "transparent");
    assert_eq!(p.badge_tier, 100);
    assert_eq!(p.balance_zat, Some(12_300_000_000));
    assert_eq!(p.proof_data.signature.len(), 130);
    let r = verify_transparent(&p).unwrap().unwrap();
    assert!(r.is_valid);
    assert_eq!(r.badge_tier, BadgeTier::Zec100);
    assert_eq!(r.message, "Valid transparent proof — ≥100 ZEC");
    assert_eq!(r.display_text(), format!("Valid | Badge: ≥100 ZEC | Address: {} | Height: 3240000", p.address));
}

#[test]
fn tampered_proofs_are_refused() {
    let p = proof_for(5 * 100_000_000, "x:alice");
    let mut q = p.clone();
    q.challenge = "x:mallory".to_string();
    let r = check_transparent_proof(&q).unwrap().unwrap();
    assert!(!r.is_valid);
    assert!(r.message.starts_with("Address mismatch: recovered "));
    assert_eq!(r.badge_tier, BadgeTier::Holder);

    let mut q = p.clone();
    q.proof_data.pub_key = Some("02".to_string() + &"11".repeat(32));
    let r = check_transparent_proof(&q).unwrap().unwrap();
    assert_eq!(r.message, "Provided public key doesn't match signature");
}

#[test]
fn malformed_signatures_are_errors() {
    let p = proof_for(0, "");
    let mut q = p.clone();
    q.proof_data.signature = "abc".to_string();
    match check_transparent_proof(&q) {
        Some(Err(Error::Verify(m))) => assert_eq!(m, "Invalid signature hex: Odd number of digits"),
        _ => panic!(),
    }
    q.proof_data.signature = "00".repeat(64);
    match check_transparent_proof(&q) {
        Some(Err(Error::Verify(m))) => assert_eq!(m, "Signature must be 65 bytes"),
        _ => panic!(),
    }
    q.proof_data.signature = "07".to_string() + &"11".repeat(64);
    match check_transparent_proof(&q) {
        Some(Err(Error::Verify(m))) => assert_eq!(m, "Invalid recovery ID: bad recovery id"),
        _ => panic!(),
    }
    q.proof_data.signature = "00".to_string() + &"ff".repeat(64);
    match check_transparent_proof(&q) {
        Some(Err(Error::Verify(m))) => assert_eq!(m, "Invalid signature: malformed signature"),
        _ => panic!(),
    }
    let mut q = p.clone();
    q.proof_data.pub_key = Some("xyz".to_string());
    match check_transparent_proof(&q) {
        Some(Err(Error::Verify(m))) => assert_eq!(m, "Invalid pubkey hex: Odd number of digits"),
        _ => panic!(),
    }
}

#[test]
fn expired_transparent_proof_is_invalid() {
    let mut p = proof_for(0, "");
    p.expires = "2020-01-01T00:00:00+00:00".to_string();
    let r = verify_transparent(&p).unwrap().unwrap();
    assert!(!r.is_valid);
    assert_eq!(r.message, "Proof has expired");
    assert_eq!(r.display_text(), " Invalid | Proof has expired");
}

#[test]
fn transparent_verification_at_an_instant() {
    let p = proof_for(10 * 100_000_000, "x:alice");
    let expiry = chrono::DateTime::parse_from_rfc3339(FAR_FUTURE).unwrap().timestamp();
    let r = verify_transparent_at(&p, (expiry, 0)).unwrap().unwrap();
    assert!(r.is_valid);
    assert_eq!(r.badge_tier, BadgeTier::Zec10);
    let r = verify_transparent_at(&p, (expiry, 1)).unwrap().unwrap();
    assert!(!r.is_valid);
    assert_eq!(r.message, "Proof has expired");
}
