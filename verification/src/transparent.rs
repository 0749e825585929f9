//! Transparent (t-address) ownership proofs: a secp256k1 recoverable signature
//! over the proof message, checked by recovering the signer's key and
//! re-deriving its address.

use vstd::prelude::*;
use vstd::string::*;
use vstd::utf8::*;
use crate::badge::{BadgeTier, ZAT_PER_ZEC, tier_of_balance, tier_display_text, tier_threshold_zec, lemma_recorded_tier_roundtrip};
use crate::challenge::{sign_message, build_sign_message};
use crate::digest::{sha256, ripemd160, base58check, sha256_digest, ripemd160_digest, base58check_encode, hex_encode, hex_decode, hex_text_ok, hex_text_bytes, hex_error_message};
use crate::challenge::{expired_at, rfc3339_instant, is_expired_at, parse_rfc3339, utc_now, clock_reading};
use crate::error::{Error, is_key_error};
use crate::text::{hex_lower, str_equal, bytes_equal, concat2, concat3, lemma_hex_roundtrip};
use crate::types::{OwnershipProof, ProofData, VerificationResult, Outcome, verdict_holds, tier_fits};

verus! {

// ── secp256k1 ──

/// The big-endian value of a byte string.
pub open spec fn big_endian(b: Seq<u8>) -> nat
    decreases b.len(),
{
    if b.len() == 0 {
        0
    } else {
        big_endian(b.drop_last()) * 256 + b.last() as nat
    }
}

/// The order of the secp256k1 group.
pub open spec fn secp256k1_order() -> nat {
    0xFFFF_FFFF_FFFF_FFFF_FFFF_FFFF_FFFF_FFFE_BAAE_DCE6_AF48_A03B_BFD2_5E8C_D036_4141nat
}

/// Whether bytes are a secp256k1 secret key: 32 bytes, big-endian, nonzero and
/// below the group order.
pub open spec fn valid_secret_key(b: Seq<u8>) -> bool {
    b.len() == 32 && 0 < big_endian(b) < secp256k1_order()
}

/// Whether bytes are a compact signature (r, s) with both halves below the
/// group order.
pub open spec fn valid_compact_signature(c: Seq<u8>) -> bool {
    &&& c.len() == 64
    &&& big_endian(c.subrange(0, 32)) < secp256k1_order()
    &&& big_endian(c.subrange(32, 64)) < secp256k1_order()
}

/// The 33-byte compressed public key of a secret key.
pub uninterp spec fn secp256k1_public_key(secret_key: Seq<u8>) -> Seq<u8>;

/// The recoverable ECDSA signature (recovery id, 64-byte compact r‖s) of a
/// 32-byte digest by a secret key, with the RFC 6979 nonce.
pub uninterp spec fn secp256k1_sign_recoverable(digest: Seq<u8>, secret_key: Seq<u8>) -> (i32, Seq<u8>);

/// The 33-byte compressed public key recovered from a digest and a recoverable
/// signature, or `None` where recovery fails.
pub uninterp spec fn secp256k1_recover(digest: Seq<u8>, rec_id: i32, compact: Seq<u8>) -> Option<Seq<u8>>;

/// Whether `SecretKey::from_slice` accepts the bytes. The source checks the
/// length and `secp256k1_ec_seckey_verify`: nonzero and below the order.
#[verifier::external_body]
fn check_secret_key(sk: &[u8]) -> (ok: bool)
    ensures
        ok == valid_secret_key(sk@),
{
    secp256k1::SecretKey::from_slice(sk).is_ok()
}

/// `PublicKey::from_secret_key(..).serialize()`: the compressed public key.
#[verifier::external_body]
fn public_key_of(sk: &[u8; 32]) -> (pk: [u8; 33])
    requires
        valid_secret_key(sk@),
    ensures
        pk@ == secp256k1_public_key(sk@),
{
    let secp = secp256k1::Secp256k1::signing_only();
    let key = secp256k1::SecretKey::from_slice(sk).unwrap();
    secp256k1::PublicKey::from_secret_key(&secp, &key).serialize()
}

/// `Secp256k1::sign_ecdsa_recoverable` on the digest, then `serialize_compact`.
/// Besides naming the signature, the contract states what the crate documents
/// of it: the recovery id is 0 to 3, r and s are scalars below the order, and
/// `recover_ecdsa` on the same digest gives back the signer's public key.
#[verifier::external_body]
fn sign_recoverable(digest: &[u8; 32], sk: &[u8; 32]) -> (sig: (i32, [u8; 64]))
    requires
        valid_secret_key(sk@),
    ensures
        (sig.0, sig.1@) == secp256k1_sign_recoverable(digest@, sk@),
        0 <= sig.0 <= 3,
        valid_compact_signature(sig.1@),
        secp256k1_recover(digest@, sig.0, sig.1@) == Some(secp256k1_public_key(sk@)),
{
    let secp = secp256k1::Secp256k1::signing_only();
    let key = secp256k1::SecretKey::from_slice(sk).unwrap();
    let msg = secp256k1::Message::from_digest(*digest);
    let (rec_id, bytes) = secp.sign_ecdsa_recoverable(&msg, &key).serialize_compact();
    (rec_id.to_i32(), bytes)
}

/// Whether `RecoveryId::from_i32` accepts the id: 0 to 3.
#[verifier::external_body]
fn check_recovery_id(id: i32) -> (ok: bool)
    ensures
        ok == (0 <= id <= 3),
{
    secp256k1::ecdsa::RecoveryId::from_i32(id).is_ok()
}

/// Whether `RecoverableSignature::from_compact` accepts the bytes: 64 bytes
/// whose halves r and s are below the order.
#[verifier::external_body]
fn check_compact_signature(compact: &[u8], rec_id: i32) -> (ok: bool)
    requires
        0 <= rec_id <= 3,
    ensures
        ok == valid_compact_signature(compact@),
{
    let id = secp256k1::ecdsa::RecoveryId::from_i32(rec_id).unwrap();
    secp256k1::ecdsa::RecoverableSignature::from_compact(compact, id).is_ok()
}

/// `Secp256k1::recover_ecdsa` on the digest and signature, the key serialized
/// compressed.
#[verifier::external_body]
fn recover_public_key(digest: &[u8; 32], rec_id: i32, compact: &[u8]) -> (pk: Option<[u8; 33]>)
    requires
        0 <= rec_id <= 3,
        valid_compact_signature(compact@),
    ensures
        opt_key(pk) == secp256k1_recover(digest@, rec_id, compact@),
{
    let id = secp256k1::ecdsa::RecoveryId::from_i32(rec_id).unwrap();
    let sig = secp256k1::ecdsa::RecoverableSignature::from_compact(compact, id).unwrap();
    let msg = secp256k1::Message::from_digest(*digest);
    match secp256k1::Secp256k1::verification_only().recover_ecdsa(&msg, &sig) {
        Ok(key) => Some(key.serialize()),
        Err(_) => None,
    }
}

/// The view of an optional public key.
pub open spec fn opt_key(k: Option<[u8; 33]>) -> Option<Seq<u8>> {
    match k {
        Some(b) => Some(b@),
        None => None,
    }
}

// ── Addresses ──

/// The P2PKH version bytes of a network: testnet for "test", mainnet otherwise.
pub open spec fn address_prefix_bytes(network: Seq<char>) -> Seq<u8> {
    if network == "test"@ {
        seq![0x1Du8, 0x25u8]
    } else {
        seq![0x1Cu8, 0xB8u8]
    }
}

/// Double SHA-256.
pub open spec fn sha256d_spec(data: Seq<u8>) -> Seq<u8> {
    sha256(sha256(data))
}

/// The t-address of a compressed public key: Base58Check of the version bytes
/// followed by RIPEMD-160 of SHA-256 of the key.
pub open spec fn taddr(pubkey: Seq<u8>, network: Seq<char>) -> Seq<char> {
    base58check(address_prefix_bytes(network) + ripemd160(sha256(pubkey)))
}

/// Zcash t-address version bytes (P2PKH) of a network.
pub fn address_prefix(network: &str) -> (p: [u8; 2])
    ensures
        p@ == address_prefix_bytes(network@),
{
    if str_equal(network, "test") {
        let p = [0x1Du8, 0x25u8];
        assert(p@ =~= seq![0x1Du8, 0x25u8]);
        p
    } else {
        let p = [0x1Cu8, 0xB8u8];
        assert(p@ =~= seq![0x1Cu8, 0xB8u8]);
        p
    }
}

/// Double-SHA256 hash.
pub fn sha256d(data: &[u8]) -> (h: [u8; 32])
    ensures
        h@ == sha256d_spec(data@),
{
    let first = sha256_digest(data);
    sha256_digest(first.as_slice())
}

/// Derive a Zcash t-address from a compressed public key.
pub fn pubkey_to_taddr(pubkey: &[u8; 33], network: &str) -> (a: String)
    ensures
        a@ == taddr(pubkey@, network@),
{
    let sha = sha256_digest(pubkey.as_slice());
    let hash160 = ripemd160_digest(sha.as_slice());
    let prefix = address_prefix(network);
    let mut payload: Vec<u8> = Vec::with_capacity(22);
    payload.push(prefix[0]);
    payload.push(prefix[1]);
    let mut i: usize = 0;
    while i < 20
        invariant
            i <= 20,
            payload@ == prefix@ + hash160@.subrange(0, i as int),
        decreases 20 - i,
    {
        payload.push(hash160[i]);
        i = i + 1;
        assert(payload@ =~= prefix@ + hash160@.subrange(0, i as int));
    }
    assert(payload@ =~= prefix@ + hash160@);
    base58check_encode(payload.as_slice())
}

// ── Keys ──

/// A transparent key pair and its address on a network.
pub struct TransparentAccount {
    pub secret_key: [u8; 32],
    pub public_key: [u8; 33],
    pub address: String,
    pub network: String,
}

impl TransparentAccount {
    /// The account is a secret key with its public key and t-address.
    pub open spec fn wf(&self) -> bool {
        &&& valid_secret_key(self.secret_key@)
        &&& self.public_key@ == secp256k1_public_key(self.secret_key@)
        &&& self.address@ == taddr(self.public_key@, self.network@)
    }
}

/// Parses a hex secret key and derives its public key and t-address.
pub fn transparent_account(secret_key_hex: &str, network: &str) -> (r: Result<TransparentAccount, Error>)
    ensures
        !hex_text_ok(secret_key_hex@) ==> is_key_error(r,
            "Invalid hex secret key: "@ + hex_error_message(secret_key_hex@)),
        hex_text_ok(secret_key_hex@) && !valid_secret_key(hex_text_bytes(secret_key_hex@))
            ==> is_key_error(r, "Invalid secret key: malformed or out-of-range secret key"@),
        hex_text_ok(secret_key_hex@) && valid_secret_key(hex_text_bytes(secret_key_hex@))
            ==> (r matches Ok(a) && {
            &&& a.wf()
            &&& a.secret_key@ == hex_text_bytes(secret_key_hex@)
            &&& a.network@ == network@
        }),
{
    let sk_bytes = match hex_decode(secret_key_hex) {
        Ok(b) => b,
        Err(e) => {
            return Err(Error::Key(concat2("Invalid hex secret key: ", e.as_str())));
        },
    };
    if !check_secret_key(sk_bytes.as_slice()) {
        return Err(Error::Key(String::from_str("Invalid secret key: malformed or out-of-range secret key")));
    }
    let mut secret_key = [0u8; 32];
    let mut i: usize = 0;
    while i < 32
        invariant
            i <= 32,
            sk_bytes@.len() == 32,
            forall|j: int| 0 <= j < i ==> secret_key@[j] == sk_bytes@[j],
        decreases 32 - i,
    {
        secret_key[i] = sk_bytes[i];
        i = i + 1;
    }
    assert(secret_key@ =~= sk_bytes@);
    let public_key = public_key_of(&secret_key);
    let address = pubkey_to_taddr(&public_key, network);
    Ok(TransparentAccount { secret_key, public_key, address, network: String::from_str(network) })
}

// ── Proving ──

/// The 65-byte signature of a transparent proof: the recovery id followed by
/// the compact signature of the double SHA-256 of the proof message.
pub open spec fn transparent_signature(secret_key: Seq<u8>, message: Seq<u8>) -> Seq<u8> {
    let sig = secp256k1_sign_recoverable(sha256d_spec(message), secret_key);
    seq![sig.0 as u8] + sig.1
}

/// Whether `p` is the transparent proof that `account` makes for a balance at
/// a height, bound to `challenge`, with the given timestamps.
pub open spec fn is_transparent_proof(
    p: OwnershipProof,
    account: TransparentAccount,
    balance: u64,
    height: u64,
    challenge: Seq<char>,
    timestamp: Seq<char>,
    expires: Seq<char>,
) -> bool {
    let tier_zec = tier_threshold_zec(tier_of_balance(balance as nat));
    &&& p.version == 1
    &&& p.proof_type@ == "transparent"@
    &&& p.network@ == account.network@
    &&& p.badge_tier == tier_zec
    &&& p.address@ == account.address@
    &&& p.balance_zat == Some(balance)
    &&& p.block_height == height
    &&& p.timestamp@ == timestamp
    &&& p.expires@ == expires
    &&& p.challenge@ == challenge
    &&& p.platform is None
    &&& p.username is None
    &&& p.proof_data.signature@ == hex_lower(transparent_signature(
        account.secret_key@,
        sign_message(account.address@, tier_zec as u64, height, challenge),
    ))
    &&& (p.proof_data.pub_key matches Some(k) && k@ == hex_lower(account.public_key@))
    &&& p.proof_data.fvk is None
}

/// Generate a transparent ownership + balance proof from the balance and
/// chain height found for the account's address: signs a challenge message
/// binding address + tier + height.
pub fn prove_transparent(
    account: &TransparentAccount,
    balance: u64,
    height: u64,
    challenge_str: &str,
    timestamp: String,
    expires: String,
) -> (p: OwnershipProof)
    requires
        account.wf(),
    ensures
        tier_fits(p.badge_tier),
        is_transparent_proof(p, *account, balance, height, challenge_str@, timestamp@, expires@),
        transparent_outcome(p) == Outcome::Accepted(
            tier_of_balance(balance as nat),
            "Valid transparent proof — "@ + tier_display_text(tier_of_balance(balance as nat)),
        ),
{
    let tier = BadgeTier::from_balance(balance);
    let msg_bytes = build_sign_message(account.address.as_str(), tier.threshold_zec(), height, challenge_str);
    let digest = sha256d(msg_bytes.as_slice());
    let sig = sign_recoverable(&digest, &account.secret_key);
    let mut full_sig: Vec<u8> = Vec::with_capacity(65);
    full_sig.push(sig.0 as u8);
    let mut i: usize = 0;
    while i < 64
        invariant
            i <= 64,
            full_sig@ == seq![sig.0 as u8] + sig.1@.subrange(0, i as int),
        decreases 64 - i,
    {
        full_sig.push(sig.1[i]);
        i = i + 1;
        assert(full_sig@ =~= seq![sig.0 as u8] + sig.1@.subrange(0, i as int));
    }
    assert(full_sig@ =~= seq![sig.0 as u8] + sig.1@);
    let p = OwnershipProof {
        version: 1,
        proof_type: String::from_str("transparent"),
        network: account.network.clone(),
        badge_tier: tier.threshold_zec(),
        address: account.address.clone(),
        balance_zat: Some(balance),
        block_height: height,
        timestamp,
        expires,
        challenge: String::from_str(challenge_str),
        platform: None,
        username: None,
        proof_data: ProofData {
            signature: hex_encode(full_sig.as_slice()),
            pub_key: Some(hex_encode(account.public_key.as_slice())),
            fvk: None,
        },
    };
    proof {
        lemma_hex_roundtrip(full_sig@);
        lemma_hex_roundtrip(account.public_key@);
        lemma_recorded_tier_roundtrip(balance as nat);
        let sb = hex_text_bytes(p.proof_data.signature@);
        assert(sb =~= full_sig@);
        assert(sb.subrange(1, 65) =~= sig.1@);
        assert(sb[0] as i32 == sig.0);
    }
    p
}

// ── Verifying ──

/// What checking the signature of a transparent proof comes to (everything
/// that `verify_transparent` does after the expiry check).
pub open spec fn transparent_outcome(p: OwnershipProof) -> Outcome {
    let sig_text = p.proof_data.signature@;
    if !hex_text_ok(sig_text) {
        Outcome::Failed("Invalid signature hex: "@ + hex_error_message(sig_text))
    } else {
        let sig = hex_text_bytes(sig_text);
        if sig.len() != 65 {
            Outcome::Failed("Signature must be 65 bytes"@)
        } else if !(0 <= sig[0] <= 3) {
            Outcome::Failed("Invalid recovery ID: "@ + "bad recovery id"@)
        } else if !valid_compact_signature(sig.subrange(1, 65)) {
            Outcome::Failed("Invalid signature: "@ + "malformed signature"@)
        } else {
            let digest = sha256d_spec(sign_message(p.address@, p.badge_tier, p.block_height, p.challenge@));
            match secp256k1_recover(digest, sig[0] as i32, sig.subrange(1, 65)) {
                None => Outcome::Failed("Signature recovery failed: "@ + "malformed signature"@),
                Some(pk) => {
                    let recovered = taddr(pk, p.network@);
                    if recovered != p.address@ {
                        Outcome::Rejected(
                            "Address mismatch: recovered "@ + recovered + " but claimed "@ + p.address@,
                        )
                    } else {
                        match p.proof_data.pub_key {
                            Some(k) => if !hex_text_ok(k@) {
                                Outcome::Failed("Invalid pubkey hex: "@ + hex_error_message(k@))
                            } else if hex_text_bytes(k@) != pk {
                                Outcome::Rejected("Provided public key doesn't match signature"@)
                            } else {
                                transparent_accepted(p.badge_tier)
                            },
                            None => transparent_accepted(p.badge_tier),
                        }
                    }
                },
            }
        }
    }
}

/// The outcome of a transparent proof found valid, for the tier it records.
pub open spec fn transparent_accepted(badge_tier_zec: u64) -> Outcome {
    let t = tier_of_balance((badge_tier_zec as nat) * (ZAT_PER_ZEC as nat));
    Outcome::Accepted(t, "Valid transparent proof — "@ + tier_display_text(t))
}

/// The outcome of a proof whose expiry check came to `expired`.
pub open spec fn timed_outcome(expired: bool, checked: Outcome) -> Outcome {
    if expired {
        Outcome::Rejected("Proof has expired"@)
    } else {
        checked
    }
}

/// At an instant after a proof's expiry (or with an expiry that cannot be
/// read), verification answers an invalid result "Proof has expired" with the
/// holder tier, whatever else the proof holds.
pub proof fn lemma_expired_proof_rejected(
    r: Option<Result<VerificationResult, Error>>,
    address: Seq<char>,
    height: u64,
    badge_tier_zec: u64,
    expires: Seq<char>,
    now: (i64, u32),
    checked: Outcome,
)
    requires
        verdict_holds(r, address, height, badge_tier_zec, timed_outcome(expired_at(rfc3339_instant(expires), now), checked)),
        expired_at(rfc3339_instant(expires), now),
    ensures
        r matches Some(Ok(v)) && !v.is_valid && v.badge_tier == BadgeTier::Holder && v.message@ == "Proof has expired"@,
{
}

/// Expiry only moves forward in time: a proof not expired at an instant is
/// not expired at any earlier instant, and one expired at an instant stays
/// expired at every later one.
pub proof fn lemma_expiry_is_monotone(expiry: Option<(i64, u32)>, earlier: (i64, u32), later: (i64, u32))
    requires
        earlier.0 < later.0 || (earlier.0 == later.0 && earlier.1 <= later.1),
    ensures
        !expired_at(expiry, later) ==> !expired_at(expiry, earlier),
        expired_at(expiry, earlier) ==> expired_at(expiry, later),
{
}

/// An error of verification with a message made of two parts.
fn verify_error(prefix: &str, detail: &str) -> (e: Error)
    ensures
        e matches Error::Verify(m) && m@ == prefix@ + detail@,
{
    Error::Verify(concat2(prefix, detail))
}

/// Check the signature of a transparent ownership proof.
///
/// 1. Recovers the public key from the signature
/// 2. Derives the t-address and checks it matches
/// 3. Checks the provided public key, if any
///
/// Returns `None` where the proof is valid but its recorded tier cannot be
/// scaled to zatoshis (the multiplication overflows).
pub fn check_transparent_proof(proof: &OwnershipProof) -> (r: Option<Result<VerificationResult, Error>>)
    ensures
        verdict_holds(r, proof.address@, proof.block_height, proof.badge_tier, transparent_outcome(*proof)),
{
    let sig_bytes = match hex_decode(proof.proof_data.signature.as_str()) {
        Ok(b) => b,
        Err(e) => {
            return Some(Err(verify_error("Invalid signature hex: ", e.as_str())));
        },
    };
    if sig_bytes.len() != 65 {
        return Some(Err(Error::Verify(String::from_str("Signature must be 65 bytes"))));
    }
    let rec_id = sig_bytes[0] as i32;
    if !check_recovery_id(rec_id) {
        return Some(Err(verify_error("Invalid recovery ID: ", "bad recovery id")));
    }
    let compact = vstd::slice::slice_subrange(sig_bytes.as_slice(), 1, 65);
    if !check_compact_signature(compact, rec_id) {
        return Some(Err(verify_error("Invalid signature: ", "malformed signature")));
    }
    let msg_bytes = build_sign_message(
        proof.address.as_str(),
        proof.badge_tier,
        proof.block_height,
        proof.challenge.as_str(),
    );
    let digest = sha256d(msg_bytes.as_slice());
    let recovered_pk = match recover_public_key(&digest, rec_id, compact) {
        Some(k) => k,
        None => {
            return Some(Err(verify_error("Signature recovery failed: ", "malformed signature")));
        },
    };
    let recovered_addr = pubkey_to_taddr(&recovered_pk, proof.network.as_str());
    if recovered_addr != proof.address {
        let mut message = concat3("Address mismatch: recovered ", recovered_addr.as_str(), " but claimed ");
        message.append(proof.address.as_str());
        return Some(Ok(VerificationResult::invalid(&proof.address, proof.block_height, message)));
    }
    match &proof.proof_data.pub_key {
        Some(pub_key_hex) => {
            let provided_pk = match hex_decode(pub_key_hex.as_str()) {
                Ok(b) => b,
                Err(e) => {
                    return Some(Err(verify_error("Invalid pubkey hex: ", e.as_str())));
                },
            };
            if !bytes_equal(provided_pk.as_slice(), recovered_pk.as_slice()) {
                return Some(Ok(VerificationResult::invalid(
                    &proof.address,
                    proof.block_height,
                    String::from_str("Provided public key doesn't match signature"),
                )));
            }
        },
        None => {},
    }
    let balance = match proof.badge_tier.checked_mul(ZAT_PER_ZEC) {
        Some(b) => b,
        None => {
            return None;
        },
    };
    let tier = BadgeTier::from_balance(balance);
    Some(Ok(VerificationResult {
        is_valid: true,
        badge_tier: tier,
        address: proof.address.clone(),
        block_height: proof.block_height,
        message: concat2("Valid transparent proof — ", tier.display_text()),
    }))
}

/// Verify a transparent ownership proof at the instant `now`: an expired
/// proof (or one whose expiry cannot be read) is invalid; otherwise its
/// signature is checked. Returns `None` where the proof is valid but its
/// recorded tier overflows when scaled to zatoshis.
pub fn verify_transparent_at(proof: &OwnershipProof, now: (i64, u32)) -> (r: Option<Result<VerificationResult, Error>>)
    ensures
        verdict_holds(
            r,
            proof.address@,
            proof.block_height,
            proof.badge_tier,
            timed_outcome(expired_at(rfc3339_instant(proof.expires@), now), transparent_outcome(*proof)),
        ),
{
    if is_expired_at(parse_rfc3339(proof.expires.as_str()), now) {
        return Some(Ok(VerificationResult::invalid(
            &proof.address,
            proof.block_height,
            String::from_str("Proof has expired"),
        )));
    }
    check_transparent_proof(proof)
}

/// Verify a transparent ownership proof at the current time.
pub fn verify_transparent(proof: &OwnershipProof) -> (r: Option<Result<VerificationResult, Error>>)
    ensures
        exists|now: (i64, u32)|
            clock_reading(now) && verdict_holds(
                r,
                proof.address@,
                proof.block_height,
                proof.badge_tier,
                timed_outcome(expired_at(rfc3339_instant(proof.expires@), now), transparent_outcome(*proof)),
            ),
{
    let now = utc_now();
    let r = verify_transparent_at(proof, now);
    assert(clock_reading(now));
    r
}

} // verus!
