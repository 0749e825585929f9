use vstd::prelude::*;
use vstd::string::*;
use crate::badge::{BadgeTier, ZAT_PER_ZEC, tier_display_text};
use crate::error::Error;
use crate::text::{decimal, push_decimal};

verus! {

/// The complete ownership + balance proof.
/// Designed to be consumed by a Chrome extension for badge display.
#[derive(Debug, Clone)]
pub struct OwnershipProof {
    /// Schema version
    pub version: u32,
    /// "transparent", "orchard", or "sapling"
    pub proof_type: String,
    /// "main" or "test"
    pub network: String,
    /// The badge tier threshold in ZEC or 0 if below minimum
    pub badge_tier: u64,
    /// The Zcash address being proven
    pub address: String,
    /// Balance in zatoshis at time of proof
    pub balance_zat: Option<u64>,
    /// Block height at which balance was checked
    pub block_height: u64,
    /// ISO 8601 timestamp of proof generation
    pub timestamp: String,
    /// ISO 8601 expiry timestamp
    pub expires: String,
    /// Identity-binding challenge string (e.g., "discord:hhanh00")
    pub challenge: String,
    /// Platform identifier: "discord", "x", "telegram", "bluesky", "zcashforum"
    pub platform: Option<String>,
    /// Username on the platform
    pub username: Option<String>,
    /// Cryptographic proof data
    pub proof_data: ProofData,
}

/// Type-specific cryptographic proof data.
#[derive(Debug, Clone)]
pub struct ProofData {
    /// Hex-encoded signature over the proof message
    pub signature: String,
    /// Hex-encoded compressed public key (transparent only)
    pub pub_key: Option<String>,
    /// Hex-encoded full viewing key bytes (shielded only)
    pub fvk: Option<String>,
}

/// Result of verifying a proof.
#[derive(Debug, Clone)]
pub struct VerificationResult {
    pub is_valid: bool,
    pub badge_tier: BadgeTier,
    pub address: String,
    pub block_height: u64,
    pub message: String,
}

/// What the verification of a proof comes to: an error, a proof found invalid
/// (with the reason), or a proof found valid (with its tier and a message).
pub enum Outcome {
    Failed(Seq<char>),
    Rejected(Seq<char>),
    Accepted(BadgeTier, Seq<char>),
}

/// Whether `r` is what a verification of a proof for `address` at `height`
/// returns when it comes to `o`.
pub open spec fn outcome_holds(
    r: Result<VerificationResult, Error>,
    address: Seq<char>,
    height: u64,
    o: Outcome,
) -> bool {
    match o {
        Outcome::Failed(m) => r matches Err(Error::Verify(e)) && e@ == m,
        Outcome::Rejected(m) => r matches Ok(v) && {
            &&& !v.is_valid
            &&& v.badge_tier == BadgeTier::Holder
            &&& v.address@ == address
            &&& v.block_height == height
            &&& v.message@ == m
        },
        Outcome::Accepted(t, m) => r matches Ok(v) && {
            &&& v.is_valid
            &&& v.badge_tier == t
            &&& v.address@ == address
            &&& v.block_height == height
            &&& v.message@ == m
        },
    }
}

/// Whether a recorded tier (in ZEC) can be scaled to zatoshis within a `u64`.
pub open spec fn tier_fits(badge_tier_zec: u64) -> bool {
    (badge_tier_zec as nat) * (ZAT_PER_ZEC as nat) <= u64::MAX
}

/// Whether an outcome accepts a proof whose recorded tier cannot be scaled to
/// zatoshis: the scaling of the tier overflows there.
pub open spec fn tier_overflows(o: Outcome, badge_tier_zec: u64) -> bool {
    o is Accepted && !tier_fits(badge_tier_zec)
}

/// Whether `r` is what a verification of a proof recording `badge_tier_zec`
/// returns when it comes to `o`: nothing exactly where the tier overflows,
/// else the result of `o`.
pub open spec fn verdict_holds(
    r: Option<Result<VerificationResult, Error>>,
    address: Seq<char>,
    height: u64,
    badge_tier_zec: u64,
    o: Outcome,
) -> bool {
    match r {
        None => tier_overflows(o, badge_tier_zec),
        Some(x) => !tier_overflows(o, badge_tier_zec) && outcome_holds(x, address, height, o),
    }
}

/// The text by which a verification result is shown.
pub open spec fn verification_text(v: VerificationResult) -> Seq<char> {
    if v.is_valid {
        "Valid | Badge: "@ + tier_display_text(v.badge_tier) + " | Address: "@ + v.address@
            + " | Height: "@ + decimal(v.block_height as nat)
    } else {
        " Invalid | "@ + v.message@
    }
}

impl VerificationResult {
    /// A result that finds the proof for `address` at `height` invalid.
    pub fn invalid(address: &String, block_height: u64, message: String) -> (v: VerificationResult)
        ensures
            !v.is_valid,
            v.badge_tier == BadgeTier::Holder,
            v.address@ == address@,
            v.block_height == block_height,
            v.message@ == message@,
    {
        VerificationResult {
            is_valid: false,
            badge_tier: BadgeTier::Holder,
            address: address.clone(),
            block_height,
            message,
        }
    }

    /// The text by which the result is shown.
    pub fn display_text(&self) -> (s: String)
        ensures
            s@ == verification_text(*self),
    {
        if self.is_valid {
            let mut s = String::from_str("Valid | Badge: ");
            s.append(self.badge_tier.display_text());
            s.append(" | Address: ");
            s.append(self.address.as_str());
            s.append(" | Height: ");
            push_decimal(&mut s, self.block_height);
            s
        } else {
            let mut s = String::from_str(" Invalid | ");
            s.append(self.message.as_str());
            s
        }
    }
}

} // verus!
