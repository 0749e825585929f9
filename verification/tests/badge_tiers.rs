use zcash_verifier::badge::ZAT_PER_ZEC;
use zcash_verifier::BadgeTier;

#[test]
fn test_badge_tiers() {
    assert_eq!(BadgeTier::from_balance(0), BadgeTier::Holder);
    assert_eq!(BadgeTier::from_balance(50_000_000), BadgeTier::Holder); // 0.5 ZEC
    assert_eq!(BadgeTier::from_balance(100_000_000), BadgeTier::Holder); // 1 ZEC (still holder)
    assert_eq!(BadgeTier::from_balance(999_999_999), BadgeTier::Holder); // 9.99 ZEC
    assert_eq!(BadgeTier::from_balance(1_000_000_000), BadgeTier::Zec10); // 10 ZEC
    assert_eq!(BadgeTier::from_balance(10_000_000_000), BadgeTier::Zec100); // 100 ZEC
    assert_eq!(BadgeTier::from_balance(100_000_000_000), BadgeTier::Zec1K); // 1,000 ZEC
    assert_eq!(BadgeTier::from_balance(1_000_000_000_000), BadgeTier::Zec10K); // 10,000 ZEC
    assert_eq!(BadgeTier::from_balance(10_000_000_000_000), BadgeTier::Zec100K); // 100,000 ZEC
    assert_eq!(BadgeTier::from_balance(100_000_000_000_000), BadgeTier::Zec1M); // 1,000,000 ZEC
    assert_eq!(BadgeTier::from_balance(1_000_000_000_000_000), BadgeTier::Zec10M); // 10,000,000 ZEC
}

#[test]
fn test_threshold_roundtrip() {
    for tier in [
        BadgeTier::Zec10,
        BadgeTier::Zec100,
        BadgeTier::Zec1K,
        BadgeTier::Zec10K,
        BadgeTier::Zec100K,
        BadgeTier::Zec1M,
        BadgeTier::Zec10M,
    ] {
        assert_eq!(BadgeTier::from_balance(tier.threshold_zat()), tier);
    }
}

#[test]
fn test_image_filenames() {
    assert_eq!(BadgeTier::Holder.image_filename(), "badge_holder.png");
    assert_eq!(BadgeTier::Zec10M.image_filename(), "badge_10m_zec.png");
}

#[test]
fn test_levels() {
    assert_eq!(BadgeTier::Holder.level(), 1);
    assert_eq!(BadgeTier::Zec10M.level(), 8);
}

const ALL: [BadgeTier; 8] = [
    BadgeTier::Holder,
    BadgeTier::Zec10,
    BadgeTier::Zec100,
    BadgeTier::Zec1K,
    BadgeTier::Zec10K,
    BadgeTier::Zec100K,
    BadgeTier::Zec1M,
    BadgeTier::Zec10M,
];

#[test]
fn thresholds_in_zec_and_zat() {
    let zec = [0u64, 10, 100, 1_000, 10_000, 100_000, 1_000_000, 10_000_000];
    for (tier, z) in ALL.iter().zip(zec.iter()) {
        assert_eq!(tier.threshold_zec(), *z);
        assert_eq!(tier.threshold_zat(), *z * ZAT_PER_ZEC);
    }
    assert_eq!(BadgeTier::Zec1K.threshold_zat(), 100_000_000_000);
}

#[test]
fn one_zatoshi_below_a_threshold_is_the_tier_below() {
    for pair in ALL.windows(2) {
        let (lower, upper) = (pair[0], pair[1]);
        assert_eq!(BadgeTier::from_balance(upper.threshold_zat() - 1), lower);
        assert_eq!(BadgeTier::from_balance(upper.threshold_zat()), upper);
    }
    assert_eq!(BadgeTier::from_balance(u64::MAX), BadgeTier::Zec10M);
}

#[test]
fn levels_rise_with_tiers() {
    for (i, tier) in ALL.iter().enumerate() {
        assert_eq!(tier.level() as usize, i + 1);
    }
    let mut last = 0;
    for b in [0u64, 5, 999_999_999, 1_000_000_000, 123_456_789_012, u64::MAX] {
        let l = BadgeTier::from_balance(b).level();
        assert!(l >= last);
        last = l;
    }
}

#[test]
fn texts_of_tiers() {
    assert_eq!(BadgeTier::Holder.display_text(), "Holder (< 1 ZEC)");
    assert_eq!(BadgeTier::Zec1K.display_text(), "≥1,000 ZEC");
    assert_eq!(BadgeTier::Zec10M.display_text(), "≥10,000,000 ZEC");
    assert_eq!(BadgeTier::Holder.emoji(), "🛡️");
    assert_eq!(BadgeTier::Zec1M.emoji(), "🐉");
    assert_eq!(BadgeTier::Zec10.image_filename(), "badge_10zec.png");
    assert_eq!(BadgeTier::Zec100K.image_filename(), "badge_100k_zec.png");
}
