//! Orchard (shielded) ownership proofs. Phase 1: the proof carries the full
//! viewing key, which must derive to the claimed address, and a keyed BLAKE2b
//! tag over the proof message under a key derived from that viewing key.

use vstd::prelude::*;
use vstd::string::*;
use crate::badge::{BadgeTier, ZAT_PER_ZEC, tier_of_balance, tier_display_text, tier_threshold_zec, lemma_recorded_tier_roundtrip};
use crate::challenge::{sign_message, build_sign_message, expired_at, rfc3339_instant, is_expired_at, parse_rfc3339, utc_now, clock_reading};
use crate::digest::{blake2b_256, blake2b_256_digest, hex_encode, hex_decode, hex_text_ok, hex_text_bytes, hex_error_message};
use crate::error::Error;
use crate::text::{decimal, hex_lower, str_equal, bytes_equal, concat2, concat3, push_decimal, lemma_hex_roundtrip};
use crate::transparent::timed_outcome;
use zcash_protocol::consensus::NetworkConstants;
use crate::types::{OwnershipProof, ProofData, VerificationResult, Outcome, verdict_holds, tier_fits};
use crate::scanner::{OrchardViewer, orchard_viewer};

verus! {

/// Orchard activation height on mainnet.
pub const ORCHARD_ACTIVATION_HEIGHT: u64 = 1_687_104;

/// Personalization tag for the ownership signature ("ZcBadgeOrchSig__").
pub open spec fn sig_personal() -> Seq<u8> {
    seq![90u8, 99, 66, 97, 100, 103, 101, 79, 114, 99, 104, 83, 105, 103, 95, 95]
}

/// Personalization tag for deriving the signing key ("ZcBadgeSKDerive_").
pub open spec fn sk_derive_personal() -> Seq<u8> {
    seq![90u8, 99, 66, 97, 100, 103, 101, 83, 75, 68, 101, 114, 105, 118, 101, 95]
}

// ── Outside key derivation ──

/// What `bip39::Mnemonic::parse(phrase)` followed by `to_seed("")` gives: the
/// 64-byte seed, or the message of the parse error.
pub uninterp spec fn bip39_seed(phrase: Seq<char>) -> Result<Seq<u8>, Seq<char>>;

/// The bytes of the Orchard spending key that ZIP 32 derives from a seed at
/// m/32'/coin_type'/account' (`SpendingKey::from_zip32_seed`), or `None` where
/// the derivation yields no valid key.
pub uninterp spec fn orchard_zip32_spending_key(seed: Seq<u8>, coin_type: u32, account: u32) -> Option<Seq<u8>>;

/// Whether `SpendingKey::from_bytes` accepts the 32 bytes.
pub uninterp spec fn orchard_spending_key_valid(sk: Seq<u8>) -> bool;

/// The 96-byte raw encoding of the full viewing key of a spending key
/// (`FullViewingKey::from(&sk).to_bytes()`).
pub uninterp spec fn orchard_full_viewing_key(sk: Seq<u8>) -> Seq<u8>;

/// The 43-byte raw default external address (diversifier index 0) of a raw
/// full viewing key, or `None` where `FullViewingKey::from_bytes` refuses it.
pub uninterp spec fn orchard_fvk_address(fvk: Seq<u8>) -> Option<Seq<u8>>;

/// `Mnemonic::parse(phrase)` then `to_seed("")`, the parse error rendered by
/// its `Display`.
#[verifier::external_body]
fn mnemonic_seed(phrase: &str) -> (r: Result<[u8; 64], String>)
    ensures
        r matches Ok(s) ==> (bip39_seed(phrase@) matches Ok(sd) && sd == s@),
        r matches Err(m) ==> (bip39_seed(phrase@) matches Err(md) && md == m@),
{
    match bip39::Mnemonic::parse(phrase) {
        Ok(m) => Ok(m.to_seed("")),
        Err(e) => Err(e.to_string()),
    }
}

/// `zcash_protocol`'s coin type of the test network (`true`) or the main
/// network (`false`): 1 and 133.
#[verifier::external_body]
fn zcash_coin_type(testnet: bool) -> (c: u32)
    ensures
        c == (if testnet { 1u32 } else { 133u32 }),
{
    let network = if testnet {
        zcash_protocol::consensus::Network::TestNetwork
    } else {
        zcash_protocol::consensus::Network::MainNetwork
    };
    network.coin_type()
}

/// `SpendingKey::from_zip32_seed(seed, coin_type, AccountId::const_from_u32(account))`,
/// the key as its bytes and the error rendered by its `Debug`. The source
/// refuses a coin type of 2^31 or more with `InvalidChildIndex`; on a
/// three-step path the only other error is `InvalidSpendingKey`. A key it
/// returns is accepted by `SpendingKey::from_bytes` (it checks that itself).
/// `const_from_u32` panics from 2^31 on, and the seed must be 32 to 252 bytes.
#[verifier::external_body]
fn zip32_spending_key(seed: &[u8], coin_type: u32, account: u32) -> (r: Result<[u8; 32], String>)
    requires
        32 <= seed@.len() <= 252,
        account < 0x8000_0000,
    ensures
        r matches Ok(k) ==> orchard_zip32_spending_key(seed@, coin_type, account) == Some(k@)
            && orchard_spending_key_valid(k@),
        r matches Err(m) ==> orchard_zip32_spending_key(seed@, coin_type, account) is None
            && m@ == (if coin_type >= 0x8000_0000 {
                "InvalidChildIndex("@ + decimal(coin_type as nat) + ")"@
            } else {
                "InvalidSpendingKey"@
            }),
        coin_type >= 0x8000_0000 ==> r is Err,
{
    let account = zip32::AccountId::const_from_u32(account);
    match orchard::keys::SpendingKey::from_zip32_seed(seed, coin_type, account) {
        Ok(sk) => Ok(*sk.to_bytes()),
        Err(e) => Err(format!("{:?}", e)),
    }
}

/// `FullViewingKey::from(&SpendingKey::from_bytes(sk))` then `to_bytes()`. The
/// raw encoding parses back (`FullViewingKey::from_bytes`) to the same key, so
/// it has an address.
#[verifier::external_body]
fn full_viewing_key_of(sk: &[u8; 32]) -> (fvk: [u8; 96])
    requires
        orchard_spending_key_valid(sk@),
    ensures
        fvk@ == orchard_full_viewing_key(sk@),
        orchard_fvk_address(fvk@) is Some,
{
    let key = orchard::keys::SpendingKey::from_bytes(*sk).unwrap();
    orchard::keys::FullViewingKey::from(&key).to_bytes()
}

/// `FullViewingKey::from_bytes(fvk)`, then `address_at(0, Scope::External)`
/// and `to_raw_address_bytes()`.
#[verifier::external_body]
fn fvk_default_address(fvk: &[u8; 96]) -> (a: Option<[u8; 43]>)
    ensures
        opt_address(a) == orchard_fvk_address(fvk@),
{
    match orchard::keys::FullViewingKey::from_bytes(fvk) {
        Some(k) => Some(k.address_at(0u64, orchard::keys::Scope::External).to_raw_address_bytes()),
        None => None,
    }
}

/// The view of an optional raw address.
pub open spec fn opt_address(a: Option<[u8; 43]>) -> Option<Seq<u8>> {
    match a {
        Some(b) => Some(b@),
        None => None,
    }
}

// ── Keys ──

/// The coin type that key derivation uses on a network: testnet for "test",
/// mainnet otherwise.
pub open spec fn network_coin_type(network: Seq<char>) -> u32 {
    if network == "test"@ {
        1
    } else {
        133
    }
}

/// The spending key that a seed phrase gives for an account on a network, or
/// the message of the error that stops the derivation.
pub open spec fn spending_key_of_phrase(phrase: Seq<char>, account: u32, network: Seq<char>) -> Result<Seq<u8>, Seq<char>> {
    match bip39_seed(phrase) {
        Err(m) => Err("Invalid mnemonic: "@ + m),
        Ok(seed) => match orchard_zip32_spending_key(seed, network_coin_type(network), account) {
            Some(k) => Ok(k),
            None => Err("Cannot derive spending key: "@ + "InvalidSpendingKey"@),
        },
    }
}

/// Derive an Orchard spending key from a seed phrase. The account index must
/// be below 2^31 once the phrase parses.
pub fn derive_spending_key(seed_phrase: &str, account: u32, network: &str) -> (r: Result<[u8; 32], Error>)
    requires
        bip39_seed(seed_phrase@) is Ok ==> account < 0x8000_0000,
    ensures
        r matches Ok(k) ==> (spending_key_of_phrase(seed_phrase@, account, network@) matches Ok(kd)
            && kd == k@ && orchard_spending_key_valid(k@)),
        r matches Err(e) ==> (spending_key_of_phrase(seed_phrase@, account, network@) matches Err(m)
            && e matches Error::Key(em) && em@ == m),
{
    let seed = match mnemonic_seed(seed_phrase) {
        Ok(s) => s,
        Err(e) => {
            return Err(Error::Key(concat2("Invalid mnemonic: ", e.as_str())));
        },
    };
    let coin_type = zcash_coin_type(str_equal(network, "test"));
    match zip32_spending_key(seed.as_slice(), coin_type, account) {
        Ok(sk) => Ok(sk),
        Err(e) => Err(Error::Key(concat2("Cannot derive spending key: ", e.as_str()))),
    }
}

/// The keys of an Orchard account: the raw full viewing key and the raw
/// default address it derives to.
pub struct OrchardAccount {
    pub fvk: [u8; 96],
    pub address: [u8; 43],
}

impl OrchardAccount {
    /// The address is the default address of the viewing key.
    pub open spec fn wf(&self) -> bool {
        orchard_fvk_address(self.fvk@) == Some(self.address@)
    }

    /// The account's viewing key, prepared for trial decryption of compact
    /// actions. A well-formed account's key always parses.
    pub fn viewer(&self) -> (v: OrchardViewer)
        requires
            self.wf(),
        ensures
            v.key() == self.fvk@,
    {
        orchard_viewer(&self.fvk).unwrap()
    }
}

/// Derives the Orchard account keys (full viewing key and default address)
/// from a seed phrase. Returns `None` where the phrase parses but the account
/// index is 2^31 or more: no ZIP 32 account has that index.
pub fn orchard_account(seed_phrase: &str, account: u32, network: &str) -> (r: Option<Result<OrchardAccount, Error>>)
    ensures
        r is None <==> (bip39_seed(seed_phrase@) is Ok && account >= 0x8000_0000),
        r matches Some(Ok(a)) ==> a.wf() && (spending_key_of_phrase(seed_phrase@, account, network@) matches Ok(k)
            && orchard_spending_key_valid(k) && a.fvk@ == orchard_full_viewing_key(k)),
        r matches Some(Err(e)) ==> (spending_key_of_phrase(seed_phrase@, account, network@) matches Err(m)
            && e matches Error::Key(em) && em@ == m),
{
    if account >= 0x8000_0000 {
        return match mnemonic_seed(seed_phrase) {
            Ok(_) => None,
            Err(e) => Some(Err(Error::Key(concat2("Invalid mnemonic: ", e.as_str())))),
        };
    }
    let sk = match derive_spending_key(seed_phrase, account, network) {
        Ok(k) => k,
        Err(e) => {
            return Some(Err(e));
        },
    };
    let fvk = full_viewing_key_of(&sk);
    match fvk_default_address(&fvk) {
        Some(address) => Some(Ok(OrchardAccount { fvk, address })),
        None => {
            proof {
                assert(false);
            }
            None
        },
    }
}

// ── Signing ──

/// The key under which a viewing key's proofs are tagged: keyed BLAKE2b of the
/// viewing key under its first 32 bytes (the ak portion).
pub open spec fn signature_key(fvk: Seq<u8>) -> Seq<u8> {
    blake2b_256(sk_derive_personal(), fvk.subrange(0, 32), fvk)
}

/// The tag of a proof message under a key.
pub open spec fn orchard_tag(key: Seq<u8>, message: Seq<u8>) -> Seq<u8> {
    blake2b_256(sig_personal(), key, message)
}

/// Create a keyed BLAKE2b signature using the spending key material.
/// This is a MAC that proves knowledge of the key.
pub fn sign_with_sk(sk_bytes: &[u8; 32], message: &[u8]) -> (sig: [u8; 32])
    ensures
        sig@ == orchard_tag(sk_bytes@, message@),
{
    let personal: [u8; 16] = [90u8, 99, 66, 97, 100, 103, 101, 79, 114, 99, 104, 83, 105, 103, 95, 95];
    assert(personal@ =~= sig_personal());
    blake2b_256_digest(&personal, sk_bytes.as_slice(), message)
}

/// The signing key derived from a raw full viewing key.
pub fn derive_signature_key(fvk: &[u8; 96]) -> (k: [u8; 32])
    ensures
        k@ == signature_key(fvk@),
{
    let personal: [u8; 16] = [90u8, 99, 66, 97, 100, 103, 101, 83, 75, 68, 101, 114, 105, 118, 101, 95];
    assert(personal@ =~= sk_derive_personal());
    let ak = vstd::slice::slice_subrange(fvk.as_slice(), 0, 32);
    blake2b_256_digest(&personal, ak, fvk.as_slice())
}

// ── Proving ──

/// Whether `p` is the Orchard proof that `account` makes on `network` for a
/// balance at a height, bound to `challenge`, with the given timestamps.
pub open spec fn is_orchard_proof(
    p: OwnershipProof,
    account: OrchardAccount,
    network: Seq<char>,
    balance: u64,
    height: u64,
    challenge: Seq<char>,
    timestamp: Seq<char>,
    expires: Seq<char>,
) -> bool {
    let tier_zec = tier_threshold_zec(tier_of_balance(balance as nat));
    let address_hex = hex_lower(account.address@);
    &&& p.version == 1
    &&& p.proof_type@ == "orchard"@
    &&& p.network@ == network
    &&& p.badge_tier == tier_zec
    &&& p.address@ == address_hex
    &&& p.balance_zat == Some(balance)
    &&& p.block_height == height
    &&& p.timestamp@ == timestamp
    &&& p.expires@ == expires
    &&& p.challenge@ == challenge
    &&& p.platform is None
    &&& p.username is None
    &&& p.proof_data.signature@ == hex_lower(orchard_tag(
        signature_key(account.fvk@),
        sign_message(address_hex, tier_zec as u64, height, challenge),
    ))
    &&& p.proof_data.pub_key is None
    &&& (p.proof_data.fvk matches Some(f) && f@ == hex_lower(account.fvk@))
}

/// The outcome of an Orchard proof found valid, for the tier it records.
pub open spec fn orchard_accepted(badge_tier_zec: u64) -> Outcome {
    let t = tier_of_balance((badge_tier_zec as nat) * (ZAT_PER_ZEC as nat));
    Outcome::Accepted(t, "Valid Orchard proof — "@ + tier_display_text(t) + " (Phase 1: FVK-attested)"@)
}

/// Generate an Orchard shielded ownership + balance proof from the balance
/// found for the account and the chain height: tags a challenge message
/// binding address + tier + height under a key derived from the viewing key.
pub fn prove_orchard(
    account: &OrchardAccount,
    network: &str,
    balance: u64,
    chain_height: u64,
    challenge_str: &str,
    timestamp: String,
    expires: String,
) -> (p: OwnershipProof)
    requires
        account.wf(),
    ensures
        tier_fits(p.badge_tier),
        is_orchard_proof(p, *account, network@, balance, chain_height, challenge_str@, timestamp@, expires@),
        orchard_outcome(p) == orchard_accepted(p.badge_tier),
        orchard_accepted(p.badge_tier) == Outcome::Accepted(
            tier_of_balance(balance as nat),
            "Valid Orchard proof — "@ + tier_display_text(tier_of_balance(balance as nat))
                + " (Phase 1: FVK-attested)"@,
        ),
{
    let tier = BadgeTier::from_balance(balance);
    let address_hex = hex_encode(account.address.as_slice());
    let msg_bytes = build_sign_message(address_hex.as_str(), tier.threshold_zec(), chain_height, challenge_str);
    let sig_key = derive_signature_key(&account.fvk);
    let signature = sign_with_sk(&sig_key, msg_bytes.as_slice());
    let p = OwnershipProof {
        version: 1,
        proof_type: String::from_str("orchard"),
        network: String::from_str(network),
        badge_tier: tier.threshold_zec(),
        address: address_hex,
        balance_zat: Some(balance),
        block_height: chain_height,
        timestamp,
        expires,
        challenge: String::from_str(challenge_str),
        platform: None,
        username: None,
        proof_data: ProofData {
            signature: hex_encode(signature.as_slice()),
            pub_key: None,
            fvk: Some(hex_encode(account.fvk.as_slice())),
        },
    };
    proof {
        lemma_hex_roundtrip(signature@);
        lemma_hex_roundtrip(account.fvk@);
        lemma_recorded_tier_roundtrip(balance as nat);
        assert(hex_text_bytes(p.proof_data.signature@) =~= signature@);
        assert(hex_text_bytes(hex_lower(account.fvk@)) =~= account.fvk@);
    }
    p
}

// ── Verifying ──

/// What checking an Orchard proof comes to (everything that `verify_orchard`
/// does after the expiry check).
pub open spec fn orchard_outcome(p: OwnershipProof) -> Outcome {
    match p.proof_data.fvk {
        None => Outcome::Failed("Missing FVK in Orchard proof"@),
        Some(fvk_hex) => if !hex_text_ok(fvk_hex@) {
            Outcome::Failed("Invalid FVK hex: "@ + hex_error_message(fvk_hex@))
        } else {
            let fvk = hex_text_bytes(fvk_hex@);
            if fvk.len() != 96 {
                Outcome::Failed("FVK must be 96 bytes, got "@ + decimal(fvk.len()))
            } else {
                match orchard_fvk_address(fvk) {
                    None => Outcome::Failed("Invalid FVK bytes"@),
                    Some(a) => {
                        let derived = hex_lower(a);
                        if derived != p.address@ {
                            Outcome::Rejected(
                                "Address mismatch: FVK derives to "@ + derived + " but proof claims "@
                                    + p.address@,
                            )
                        } else {
                            orchard_signature_outcome(p, fvk)
                        }
                    },
                }
            }
        },
    }
}

/// The part of `orchard_outcome` that checks the tag, once the viewing key
/// `fvk` is known to derive to the claimed address.
pub open spec fn orchard_signature_outcome(p: OwnershipProof, fvk: Seq<u8>) -> Outcome {
    let sig_text = p.proof_data.signature@;
    if !hex_text_ok(sig_text) {
        Outcome::Failed("Invalid signature hex: "@ + hex_error_message(sig_text))
    } else {
        let sig = hex_text_bytes(sig_text);
        if sig.len() != 32 {
            Outcome::Failed("Signature must be 32 bytes"@)
        } else if sig != orchard_tag(
            signature_key(fvk),
            sign_message(p.address@, p.badge_tier, p.block_height, p.challenge@),
        ) {
            Outcome::Rejected("Signature verification failed"@)
        } else {
            orchard_accepted(p.badge_tier)
        }
    }
}

/// Copies 96 bytes into an array.
fn to_array96(v: &Vec<u8>) -> (a: [u8; 96])
    requires
        v@.len() == 96,
    ensures
        a@ == v@,
{
    let mut a = [0u8; 96];
    let mut i: usize = 0;
    while i < 96
        invariant
            i <= 96,
            v@.len() == 96,
            forall|j: int| 0 <= j < i ==> a@[j] == v@[j],
        decreases 96 - i,
    {
        a[i] = v[i];
        i = i + 1;
    }
    assert(a@ =~= v@);
    a
}

/// Check an Orchard ownership proof: the viewing key must derive to the
/// claimed address, and the tag must be the one its signing key gives.
/// Returns `None` where the proof is valid but its recorded tier cannot be
/// scaled to zatoshis (the multiplication overflows).
pub fn check_orchard_proof(proof: &OwnershipProof) -> (r: Option<Result<VerificationResult, Error>>)
    ensures
        verdict_holds(r, proof.address@, proof.block_height, proof.badge_tier, orchard_outcome(*proof)),
{
    let fvk_hex = match &proof.proof_data.fvk {
        Some(f) => f,
        None => {
            return Some(Err(Error::Verify(String::from_str("Missing FVK in Orchard proof"))));
        },
    };
    let fvk_bytes_vec = match hex_decode(fvk_hex.as_str()) {
        Ok(b) => b,
        Err(e) => {
            return Some(Err(Error::Verify(concat2("Invalid FVK hex: ", e.as_str()))));
        },
    };
    if fvk_bytes_vec.len() != 96 {
        let mut m = String::from_str("FVK must be 96 bytes, got ");
        push_decimal(&mut m, fvk_bytes_vec.len() as u64);
        return Some(Err(Error::Verify(m)));
    }
    let fvk_arr = to_array96(&fvk_bytes_vec);
    let derived_address = match fvk_default_address(&fvk_arr) {
        Some(a) => a,
        None => {
            return Some(Err(Error::Verify(String::from_str("Invalid FVK bytes"))));
        },
    };
    let derived_address_hex = hex_encode(derived_address.as_slice());
    if derived_address_hex != proof.address {
        let mut message = concat3("Address mismatch: FVK derives to ", derived_address_hex.as_str(), " but proof claims ");
        message.append(proof.address.as_str());
        return Some(Ok(VerificationResult::invalid(&proof.address, proof.block_height, message)));
    }
    let sig_bytes = match hex_decode(proof.proof_data.signature.as_str()) {
        Ok(b) => b,
        Err(e) => {
            return Some(Err(Error::Verify(concat2("Invalid signature hex: ", e.as_str()))));
        },
    };
    if sig_bytes.len() != 32 {
        return Some(Err(Error::Verify(String::from_str("Signature must be 32 bytes"))));
    }
    let sig_key = derive_signature_key(&fvk_arr);
    let msg_bytes = build_sign_message(
        proof.address.as_str(),
        proof.badge_tier,
        proof.block_height,
        proof.challenge.as_str(),
    );
    let expected_sig = sign_with_sk(&sig_key, msg_bytes.as_slice());
    if !bytes_equal(sig_bytes.as_slice(), expected_sig.as_slice()) {
        return Some(Ok(VerificationResult::invalid(
            &proof.address,
            proof.block_height,
            String::from_str("Signature verification failed"),
        )));
    }
    let balance = match proof.badge_tier.checked_mul(ZAT_PER_ZEC) {
        Some(b) => b,
        None => {
            return None;
        },
    };
    let tier = BadgeTier::from_balance(balance);
    Some(Ok(VerificationResult {
        is_valid: true,
        badge_tier: tier,
        address: proof.address.clone(),
        block_height: proof.block_height,
        message: concat3("Valid Orchard proof — ", tier.display_text(), " (Phase 1: FVK-attested)"),
    }))
}

/// Verify an Orchard shielded ownership proof at the instant `now`: an
/// expired proof (or one whose expiry cannot be read) is invalid; otherwise it
/// is checked. Returns `None` where the proof is valid but its recorded tier
/// overflows when scaled to zatoshis.
///
/// Phase 1: Verifies that the FVK derives to the claimed address.
/// The BLAKE2b signature proves the prover had the FVK at proof generation time.
pub fn verify_orchard_at(proof: &OwnershipProof, now: (i64, u32)) -> (r: Option<Result<VerificationResult, Error>>)
    ensures
        verdict_holds(
            r,
            proof.address@,
            proof.block_height,
            proof.badge_tier,
            timed_outcome(expired_at(rfc3339_instant(proof.expires@), now), orchard_outcome(*proof)),
        ),
{
    if is_expired_at(parse_rfc3339(proof.expires.as_str()), now) {
        return Some(Ok(VerificationResult::invalid(
            &proof.address,
            proof.block_height,
            String::from_str("Proof has expired"),
        )));
    }
    check_orchard_proof(proof)
}

/// Verify an Orchard shielded ownership proof at the current time.
pub fn verify_orchard(proof: &OwnershipProof) -> (r: Option<Result<VerificationResult, Error>>)
    ensures
        exists|now: (i64, u32)|
            clock_reading(now) && verdict_holds(
                r,
                proof.address@,
                proof.block_height,
                proof.badge_tier,
                timed_outcome(expired_at(rfc3339_instant(proof.expires@), now), orchard_outcome(*proof)),
            ),
{
    let now = utc_now();
    let r = verify_orchard_at(proof, now);
    assert(clock_reading(now));
    r
}

} // verus!
