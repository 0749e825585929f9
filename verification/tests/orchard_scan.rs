use zcash_verifier::orchard_proof::orchard_account;
use zcash_verifier::scanner::{compact_ciphertext, compact_field32, OrchardScan};

const TEST_SEED: &str = "abandon abandon abandon abandon abandon abandon abandon abandon abandon abandon abandon about";

#[test]
fn compact_fields_are_padded() {
    assert_eq!(compact_field32(&[7u8; 32]), [7u8; 32]);
    assert_eq!(compact_field32(&[7u8; 31]), [0u8; 32]);
    let enc = compact_ciphertext(&[1u8; 10]);
    assert_eq!(&enc[..10], &[1u8; 10]);
    assert_eq!(&enc[10..], &[0u8; 42]);
    assert_eq!(compact_ciphertext(&[2u8; 80]), [2u8; 52]);
}

#[test]
fn unspent_balance_excludes_spent_notes() {
    let scan = OrchardScan { notes: vec![(5, [1u8; 32]), (7, [2u8; 32]), (11, [3u8; 32])], spent: vec![[2u8; 32], [9u8; 32]] };
    assert_eq!(scan.unspent_balance(), Some(16));
    assert!(scan.is_spent(&[2u8; 32]));
    assert!(!scan.is_spent(&[1u8; 32]));
    let big = OrchardScan { notes: vec![(u64::MAX, [1u8; 32]), (1, [2u8; 32])], spent: vec![] };
    assert_eq!(big.unspent_balance(), None);
    assert_eq!(OrchardScan::new().unspent_balance(), Some(0));
}

#[test]
fn scanning_records_nullifiers_and_refuses_noncanonical_fields() {
    let acct = orchard_account(TEST_SEED, 0, "test").unwrap().unwrap();
    let viewer = acct.viewer();
    let mut scan = OrchardScan::new();
    // A random action that the key does not decrypt
    assert!(scan.scan_action(&viewer, &[1u8; 32], &[2u8; 32], &[3u8; 32], &[4u8; 52]));
    assert_eq!(scan.spent, vec![[1u8; 32]]);
    assert!(scan.notes.is_empty());
    // A nullifier field of the wrong length is not recorded
    assert!(scan.scan_action(&viewer, &[1u8; 5], &[2u8; 32], &[3u8; 32], &[]));
    assert_eq!(scan.spent.len(), 1);
    // A non-canonical nullifier cannot form a compact action
    assert!(!scan.scan_action(&viewer, &[0xffu8; 32], &[2u8; 32], &[3u8; 32], &[4u8; 52]));
    assert_eq!(scan.spent.len(), 2);
}
