use vstd::prelude::*;

verus! {

/// 1 ZEC = 100,000,000 zatoshis
pub const ZAT_PER_ZEC: u64 = 100_000_000;

/// Badge tier thresholds in ZEC.
/// Users are assigned the highest tier their balance meets.
///
/// Each tier maps to a badge shield image:
///   badge_holder.png    — below 10 ZEC (basic holder)
///   badge_10zec.png     — at least 10 ZEC
///   badge_100zec.png    — at least 100 ZEC
///   badge_1k_zec.png    — at least 1,000 ZEC
///   badge_10k_zec.png   — at least 10,000 ZEC
///   badge_100k_zec.png  — at least 100,000 ZEC
///   badge_1m_zec.png    — at least 1,000,000 ZEC
///   badge_10m_zec.png   — at least 10,000,000 ZEC
#[derive(Debug, Clone, Copy, PartialEq, Eq, PartialOrd, Ord, Hash, Structural)]
pub enum BadgeTier {
    /// Basic holder badge
    Holder,
    /// Balance of at least 10 ZEC
    Zec10,
    /// Balance of at least 100 ZEC
    Zec100,
    /// Balance of at least 1,000 ZEC
    Zec1K,
    /// Balance of at least 10,000 ZEC
    Zec10K,
    /// Balance of at least 100,000 ZEC
    Zec100K,
    /// Balance of at least 1,000,000 ZEC
    Zec1M,
    /// Balance of at least 10,000,000 ZEC
    Zec10M,
}

/// The threshold of a tier in ZEC (0 for the holder tier).
pub open spec fn tier_threshold_zec(t: BadgeTier) -> nat {
    match t {
        BadgeTier::Holder => 0,
        BadgeTier::Zec10 => 10,
        BadgeTier::Zec100 => 100,
        BadgeTier::Zec1K => 1_000,
        BadgeTier::Zec10K => 10_000,
        BadgeTier::Zec100K => 100_000,
        BadgeTier::Zec1M => 1_000_000,
        BadgeTier::Zec10M => 10_000_000,
    }
}

/// The threshold of a tier in zatoshis.
pub open spec fn tier_threshold_zat(t: BadgeTier) -> nat {
    tier_threshold_zec(t) * (ZAT_PER_ZEC as nat)
}

/// The level number of a tier, 1 for the holder tier up to 8.
pub open spec fn tier_level(t: BadgeTier) -> nat {
    match t {
        BadgeTier::Holder => 1,
        BadgeTier::Zec10 => 2,
        BadgeTier::Zec100 => 3,
        BadgeTier::Zec1K => 4,
        BadgeTier::Zec10K => 5,
        BadgeTier::Zec100K => 6,
        BadgeTier::Zec1M => 7,
        BadgeTier::Zec10M => 8,
    }
}

/// The highest tier whose threshold the balance meets.
pub open spec fn tier_of_balance(balance_zat: nat) -> BadgeTier {
    if balance_zat >= tier_threshold_zat(BadgeTier::Zec10M) {
        BadgeTier::Zec10M
    } else if balance_zat >= tier_threshold_zat(BadgeTier::Zec1M) {
        BadgeTier::Zec1M
    } else if balance_zat >= tier_threshold_zat(BadgeTier::Zec100K) {
        BadgeTier::Zec100K
    } else if balance_zat >= tier_threshold_zat(BadgeTier::Zec10K) {
        BadgeTier::Zec10K
    } else if balance_zat >= tier_threshold_zat(BadgeTier::Zec1K) {
        BadgeTier::Zec1K
    } else if balance_zat >= tier_threshold_zat(BadgeTier::Zec100) {
        BadgeTier::Zec100
    } else if balance_zat >= tier_threshold_zat(BadgeTier::Zec10) {
        BadgeTier::Zec10
    } else {
        BadgeTier::Holder
    }
}

/// The tier one above `t`, if there is one.
pub open spec fn next_tier(t: BadgeTier) -> Option<BadgeTier> {
    match t {
        BadgeTier::Holder => Some(BadgeTier::Zec10),
        BadgeTier::Zec10 => Some(BadgeTier::Zec100),
        BadgeTier::Zec100 => Some(BadgeTier::Zec1K),
        BadgeTier::Zec1K => Some(BadgeTier::Zec10K),
        BadgeTier::Zec10K => Some(BadgeTier::Zec100K),
        BadgeTier::Zec100K => Some(BadgeTier::Zec1M),
        BadgeTier::Zec1M => Some(BadgeTier::Zec10M),
        BadgeTier::Zec10M => None,
    }
}

/// The text by which a tier is shown to users.
pub open spec fn tier_display_text(t: BadgeTier) -> Seq<char> {
    match t {
        BadgeTier::Holder => "Holder (< 1 ZEC)"@,
        BadgeTier::Zec10 => "≥10 ZEC"@,
        BadgeTier::Zec100 => "≥100 ZEC"@,
        BadgeTier::Zec1K => "≥1,000 ZEC"@,
        BadgeTier::Zec10K => "≥10,000 ZEC"@,
        BadgeTier::Zec100K => "≥100,000 ZEC"@,
        BadgeTier::Zec1M => "≥1,000,000 ZEC"@,
        BadgeTier::Zec10M => "≥10,000,000 ZEC"@,
    }
}

/// The emoji of a tier.
pub open spec fn tier_emoji(t: BadgeTier) -> Seq<char> {
    match t {
        BadgeTier::Holder => "🛡️"@,
        BadgeTier::Zec10 => "🗡️"@,
        BadgeTier::Zec100 => "💎"@,
        BadgeTier::Zec1K => "⚔️"@,
        BadgeTier::Zec10K => "👑"@,
        BadgeTier::Zec100K => "🔥"@,
        BadgeTier::Zec1M => "🐉"@,
        BadgeTier::Zec10M => "✨"@,
    }
}

/// The badge image file of a tier.
pub open spec fn tier_image(t: BadgeTier) -> Seq<char> {
    match t {
        BadgeTier::Holder => "badge_holder.png"@,
        BadgeTier::Zec10 => "badge_10zec.png"@,
        BadgeTier::Zec100 => "badge_100zec.png"@,
        BadgeTier::Zec1K => "badge_1k_zec.png"@,
        BadgeTier::Zec10K => "badge_10k_zec.png"@,
        BadgeTier::Zec100K => "badge_100k_zec.png"@,
        BadgeTier::Zec1M => "badge_1m_zec.png"@,
        BadgeTier::Zec10M => "badge_10m_zec.png"@,
    }
}

impl BadgeTier {
    /// Determine the badge tier from a balance in zatoshis.
    pub fn from_balance(balance_zat: u64) -> (t: BadgeTier)
        ensures
            t == tier_of_balance(balance_zat as nat),
    {
        if balance_zat >= 10_000_000 * ZAT_PER_ZEC {
            BadgeTier::Zec10M
        } else if balance_zat >= 1_000_000 * ZAT_PER_ZEC {
            BadgeTier::Zec1M
        } else if balance_zat >= 100_000 * ZAT_PER_ZEC {
            BadgeTier::Zec100K
        } else if balance_zat >= 10_000 * ZAT_PER_ZEC {
            BadgeTier::Zec10K
        } else if balance_zat >= 1_000 * ZAT_PER_ZEC {
            BadgeTier::Zec1K
        } else if balance_zat >= 100 * ZAT_PER_ZEC {
            BadgeTier::Zec100
        } else if balance_zat >= 10 * ZAT_PER_ZEC {
            BadgeTier::Zec10
        } else {
            BadgeTier::Holder
        }
    }

    /// The tier that a proof recording the threshold `badge_tier_zec` (in ZEC)
    /// stands for: the tier of that many ZEC.
    pub fn from_recorded_tier(badge_tier_zec: u64) -> (t: BadgeTier)
        requires
            badge_tier_zec * ZAT_PER_ZEC <= u64::MAX,
        ensures
            t == tier_of_balance((badge_tier_zec as nat) * (ZAT_PER_ZEC as nat)),
    {
        BadgeTier::from_balance(badge_tier_zec * ZAT_PER_ZEC)
    }

    /// Returns the tier threshold in ZEC, or 0 for Holder.
    pub fn threshold_zec(&self) -> (z: u64)
        ensures
            z == tier_threshold_zec(*self),
    {
        match self {
            BadgeTier::Holder => 0,
            BadgeTier::Zec10 => 10,
            BadgeTier::Zec100 => 100,
            BadgeTier::Zec1K => 1_000,
            BadgeTier::Zec10K => 10_000,
            BadgeTier::Zec100K => 100_000,
            BadgeTier::Zec1M => 1_000_000,
            BadgeTier::Zec10M => 10_000_000,
        }
    }

    /// Returns the tier threshold in zatoshis.
    pub fn threshold_zat(&self) -> (z: u64)
        ensures
            z == tier_threshold_zat(*self),
    {
        self.threshold_zec() * ZAT_PER_ZEC
    }

    /// Emoji badge for display.
    pub fn emoji(&self) -> (s: &'static str)
        ensures
            s@ == tier_emoji(*self),
    {
        match self {
            BadgeTier::Holder => "🛡️",
            BadgeTier::Zec10 => "🗡️",
            BadgeTier::Zec100 => "💎",
            BadgeTier::Zec1K => "⚔️",
            BadgeTier::Zec10K => "👑",
            BadgeTier::Zec100K => "🔥",
            BadgeTier::Zec1M => "🐉",
            BadgeTier::Zec10M => "✨",
        }
    }

    /// Returns the badge image filename.
    pub fn image_filename(&self) -> (s: &'static str)
        ensures
            s@ == tier_image(*self),
    {
        match self {
            BadgeTier::Holder => "badge_holder.png",
            BadgeTier::Zec10 => "badge_10zec.png",
            BadgeTier::Zec100 => "badge_100zec.png",
            BadgeTier::Zec1K => "badge_1k_zec.png",
            BadgeTier::Zec10K => "badge_10k_zec.png",
            BadgeTier::Zec100K => "badge_100k_zec.png",
            BadgeTier::Zec1M => "badge_1m_zec.png",
            BadgeTier::Zec10M => "badge_10m_zec.png",
        }
    }

    /// Returns the tier level number (1-8).
    pub fn level(&self) -> (l: u8)
        ensures
            l == tier_level(*self),
    {
        match self {
            BadgeTier::Holder => 1,
            BadgeTier::Zec10 => 2,
            BadgeTier::Zec100 => 3,
            BadgeTier::Zec1K => 4,
            BadgeTier::Zec10K => 5,
            BadgeTier::Zec100K => 6,
            BadgeTier::Zec1M => 7,
            BadgeTier::Zec10M => 8,
        }
    }

    /// The text by which the tier is shown to users.
    pub fn display_text(&self) -> (s: &'static str)
        ensures
            s@ == tier_display_text(*self),
    {
        match self {
            BadgeTier::Holder => "Holder (< 1 ZEC)",
            BadgeTier::Zec10 => "≥10 ZEC",
            BadgeTier::Zec100 => "≥100 ZEC",
            BadgeTier::Zec1K => "≥1,000 ZEC",
            BadgeTier::Zec10K => "≥10,000 ZEC",
            BadgeTier::Zec100K => "≥100,000 ZEC",
            BadgeTier::Zec1M => "≥1,000,000 ZEC",
            BadgeTier::Zec10M => "≥10,000,000 ZEC",
        }
    }
}

} // verus!

verus! {

/// A larger balance never gets a lower tier.
pub proof fn lemma_tier_monotone(a: nat, b: nat)
    requires
        a <= b,
    ensures
        tier_level(tier_of_balance(a)) <= tier_level(tier_of_balance(b)),
{
}

/// The tier of a balance is the highest one it meets: its threshold is at most
/// the balance, and the next tier's threshold is above it.
pub proof fn lemma_tier_is_highest_met(balance_zat: nat)
    ensures
        tier_threshold_zat(tier_of_balance(balance_zat)) <= balance_zat,
        next_tier(tier_of_balance(balance_zat)) matches Some(n) ==> balance_zat < tier_threshold_zat(n),
{
}

/// A balance of exactly a tier's threshold gets that tier.
pub proof fn lemma_threshold_roundtrip(t: BadgeTier)
    ensures
        tier_of_balance(tier_threshold_zat(t)) == t,
{
}

/// The tier that a proof records (its threshold in ZEC) gives back the tier of
/// the balance it was made for.
pub proof fn lemma_recorded_tier_roundtrip(balance_zat: nat)
    ensures
        tier_threshold_zec(tier_of_balance(balance_zat)) * (ZAT_PER_ZEC as nat) <= u64::MAX,
        tier_of_balance(tier_threshold_zec(tier_of_balance(balance_zat)) * (ZAT_PER_ZEC as nat))
            == tier_of_balance(balance_zat),
{
    lemma_threshold_roundtrip(tier_of_balance(balance_zat));
}

/// Levels number the tiers in order: distinct tiers have distinct levels, from
/// 1 to 8, rising with the thresholds.
pub proof fn lemma_levels_order_tiers(s: BadgeTier, t: BadgeTier)
    ensures
        1 <= tier_level(t) <= 8,
        tier_level(s) == tier_level(t) ==> s == t,
        tier_level(s) < tier_level(t) <==> tier_threshold_zec(s) < tier_threshold_zec(t),
{
}

} // verus!
