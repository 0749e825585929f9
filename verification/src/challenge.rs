//! The message that a proof signs, and the timestamps that bound its validity.

use vstd::prelude::*;
use vstd::string::*;
use vstd::utf8::*;
use crate::digest::{blake2b_256, blake2b_256_digest};
use crate::text::{decimal, push_decimal, colon_free, lemma_colon_split, lemma_decimal_digits, lemma_decimal_injective};

verus! {

/// Default proof expiry: 30 days.
pub const DEFAULT_EXPIRY_DAYS: i64 = 30;

/// Seconds in a day.
pub const SECS_PER_DAY: i64 = 86_400;

/// Personalization tag for challenge hashing ("ZcBadgeChallnge_").
pub open spec fn challenge_personal() -> Seq<u8> {
    seq![90u8, 99, 66, 97, 100, 103, 101, 67, 104, 97, 108, 108, 110, 103, 101, 95]
}

/// The text whose hash a proof signs: it binds the claimed address, the badge
/// tier, the block height and the identity challenge.
pub open spec fn sign_preimage(address: Seq<char>, badge_tier_zec: u64, block_height: u64, challenge: Seq<char>) -> Seq<char> {
    "ZcashBadgeProof:"@ + address + ":"@ + decimal(badge_tier_zec as nat) + ":"@
        + decimal(block_height as nat) + ":"@ + challenge
}

/// The signed text determines what it binds: for addresses without ':', two
/// proofs sign the same text only if they have the same address, tier, block
/// height and challenge. (Distinct texts give distinct messages up to a
/// BLAKE2b collision, which no contract here states.)
pub proof fn lemma_sign_preimage_injective(
    a1: Seq<char>,
    t1: u64,
    h1: u64,
    c1: Seq<char>,
    a2: Seq<char>,
    t2: u64,
    h2: u64,
    c2: Seq<char>,
)
    requires
        colon_free(a1),
        colon_free(a2),
        sign_preimage(a1, t1, h1, c1) == sign_preimage(a2, t2, h2, c2),
    ensures
        a1 == a2,
        t1 == t2,
        h1 == h2,
        c1 == c2,
{
    reveal_strlit("ZcashBadgeProof:");
    reveal_strlit(":");
    let colon = seq![':'];
    let prefix = "ZcashBadgeProof:"@;
    let d1 = decimal(t1 as nat);
    let d2 = decimal(t2 as nat);
    let e1 = decimal(h1 as nat);
    let e2 = decimal(h2 as nat);
    let rest1 = a1 + colon + (d1 + colon + (e1 + colon + c1));
    let rest2 = a2 + colon + (d2 + colon + (e2 + colon + c2));
    assert(sign_preimage(a1, t1, h1, c1) =~= prefix + rest1);
    assert(sign_preimage(a2, t2, h2, c2) =~= prefix + rest2);
    assert(rest1 =~= (prefix + rest1).subrange(16, (prefix + rest1).len() as int));
    assert(rest2 =~= (prefix + rest2).subrange(16, (prefix + rest2).len() as int));
    lemma_colon_split(a1, d1 + colon + (e1 + colon + c1), a2, d2 + colon + (e2 + colon + c2));
    lemma_decimal_digits(t1 as nat);
    lemma_decimal_digits(t2 as nat);
    lemma_decimal_digits(h1 as nat);
    lemma_decimal_digits(h2 as nat);
    lemma_colon_split(d1, e1 + colon + c1, d2, e2 + colon + c2);
    lemma_colon_split(e1, c1, e2, c2);
    lemma_decimal_injective(t1 as nat, t2 as nat);
    lemma_decimal_injective(h1 as nat, h2 as nat);
}

/// The 32-byte message that a proof signs.
pub open spec fn sign_message(address: Seq<char>, badge_tier_zec: u64, block_height: u64, challenge: Seq<char>) -> Seq<u8> {
    blake2b_256(
        challenge_personal(),
        Seq::empty(),
        encode_utf8(sign_preimage(address, badge_tier_zec, block_height, challenge)),
    )
}

/// Construct the message bytes to be signed.
///
/// The message binds the proof to:
/// - The claimed address
/// - The badge tier
/// - The block height
/// - The user-provided challenge (identity binding)
pub fn build_sign_message(
    address: &str,
    badge_tier_zec: u64,
    block_height: u64,
    challenge: &str,
) -> (m: Vec<u8>)
    ensures
        m@ == sign_message(address@, badge_tier_zec, block_height, challenge@),
        m@.len() == 32,
{
    let mut input = String::from_str("ZcashBadgeProof:");
    input.append(address);
    input.append(":");
    push_decimal(&mut input, badge_tier_zec);
    input.append(":");
    push_decimal(&mut input, block_height);
    input.append(":");
    input.append(challenge);
    let personal: [u8; 16] = [90u8, 99, 66, 97, 100, 103, 101, 67, 104, 97, 108, 108, 110, 103, 101, 95];
    let empty: [u8; 0] = [];
    let hash = blake2b_256_digest(&personal, empty.as_slice(), input.as_str().as_bytes());
    proof {
        assert(input@ =~= sign_preimage(address@, badge_tier_zec, block_height, challenge@));
        assert(personal@ =~= challenge_personal());
        assert(empty@ =~= Seq::<u8>::empty());
    }
    vstd::slice::slice_to_vec(hash.as_slice())
}

// ── Timestamps ──
//
// An instant is a pair (seconds since 1970-01-01T00:00:00Z, nanoseconds within
// the second), as `chrono` reports it.

/// The RFC 3339 text of an instant in UTC, as `chrono` writes it
/// (`DateTime::<Utc>::from_timestamp(secs, nanos)` then `to_rfc3339`); `None`
/// where `chrono` cannot represent the instant.
pub uninterp spec fn utc_rfc3339(secs: i64, nanos: u32) -> Option<Seq<char>>;

/// The instant that `chrono` parses an RFC 3339 text as
/// (`DateTime::parse_from_rfc3339`); `None` where it refuses the text.
pub uninterp spec fn rfc3339_instant(text: Seq<char>) -> Option<(i64, u32)>;

/// The current time from `chrono::Utc::now()`. What it returns depends on the
/// clock; every outcome lies at or after 1970 (`now` panics before), has its
/// nanoseconds below one second (it comes from a `std::time::Duration`), and is
/// an instant that `chrono` can write (`now` itself builds it with
/// `from_timestamp`).
#[verifier::external_body]
pub(crate) fn utc_now() -> (t: (i64, u32))
    ensures
        t.0 >= 0,
        t.1 < 1_000_000_000,
        utc_rfc3339(t.0, t.1) is Some,
{
    let now = chrono::Utc::now();
    (now.timestamp(), now.timestamp_subsec_nanos())
}

/// Whether an instant lies in the years 0000 to 9999, the years that RFC 3339
/// writes with four digits.
pub open spec fn four_digit_year(secs: int) -> bool {
    -62_167_219_200 <= secs <= 253_402_300_799
}

/// `DateTime::<Utc>::from_timestamp(secs, nanos)` followed by `to_rfc3339`.
/// Besides naming the text, the contract states what the source of both
/// functions shows for an instant in a four-digit year with nanoseconds below
/// one second: the instant can be represented, and `to_rfc3339` writes every
/// nonzero fractional digit and the offset "+00:00", so that
/// `parse_from_rfc3339` reads the text back as the same instant.
#[verifier::external_body]
fn format_utc_rfc3339(secs: i64, nanos: u32) -> (r: Option<String>)
    ensures
        opt_text(r) == utc_rfc3339(secs, nanos),
        four_digit_year(secs as int) && nanos < 1_000_000_000 ==> r is Some,
        r matches Some(t) ==> (four_digit_year(secs as int) && nanos < 1_000_000_000
            ==> rfc3339_instant(t@) == Some((secs, nanos))),
{
    match chrono::DateTime::from_timestamp(secs, nanos) {
        Some(d) => Some(d.to_rfc3339()),
        None => None,
    }
}

/// `DateTime::parse_from_rfc3339(text)`, as an instant.
#[verifier::external_body]
pub(crate) fn parse_rfc3339(text: &str) -> (r: Option<(i64, u32)>)
    ensures
        r == rfc3339_instant(text@),
{
    match chrono::DateTime::parse_from_rfc3339(text) {
        Ok(d) => Some((d.timestamp(), d.timestamp_subsec_nanos())),
        Err(_) => None,
    }
}

/// The view of an optional text.
pub open spec fn opt_text(o: Option<String>) -> Option<Seq<char>> {
    match o {
        Some(s) => Some(s@),
        None => None,
    }
}

/// Generate the current ISO 8601 timestamp. Before the year 10000 it reads
/// back as the instant it was made at.
pub fn now_iso8601() -> (s: String)
    ensures
        exists|secs: i64, nanos: u32|
            secs >= 0 && nanos < 1_000_000_000 && utc_rfc3339(secs, nanos) == Some(s@)
                && (four_digit_year(secs as int) ==> rfc3339_instant(s@) == Some((secs, nanos))),
{
    let now = utc_now();
    match format_utc_rfc3339(now.0, now.1) {
        Some(s) => s,
        None => {
            proof {
                assert(false);
            }
            String::new()
        },
    }
}

/// The RFC 3339 text of the instant `days` days after `(now_secs, now_nanos)`;
/// `None` where the sum leaves the range that `chrono` can represent.
pub open spec fn expiry_text(now_secs: i64, now_nanos: u32, days: i64) -> Option<Seq<char>> {
    let delta = days * SECS_PER_DAY;
    let secs = now_secs + delta;
    if i64::MIN <= delta <= i64::MAX && i64::MIN <= secs <= i64::MAX {
        utc_rfc3339(secs as i64, now_nanos)
    } else {
        None
    }
}

/// The instant `days` days after `now_secs` (in seconds).
pub open spec fn days_later(now_secs: i64, days: i64) -> int {
    now_secs + days * SECS_PER_DAY
}

/// Whether `days` days, in seconds, fit in an `i64` and end in a four-digit
/// year when counted from `now_secs`.
pub open spec fn readable_expiry(now_secs: i64, days: i64) -> bool {
    &&& i64::MIN <= days * SECS_PER_DAY <= i64::MAX
    &&& four_digit_year(days_later(now_secs, days))
}

/// The expiry timestamp `days` days after the given instant. Where that
/// instant falls in a four-digit year (and the days fit in an `i64` as
/// seconds), the text reads back as exactly that instant.
pub fn expiry_after(now_secs: i64, now_nanos: u32, days: i64) -> (r: Option<String>)
    ensures
        opt_text(r) == expiry_text(now_secs, now_nanos, days),
        readable_expiry(now_secs, days) && now_nanos < 1_000_000_000 ==> (r matches Some(t)
            && rfc3339_instant(t@) == Some((days_later(now_secs, days) as i64, now_nanos))),
{
    match days.checked_mul(SECS_PER_DAY) {
        Some(delta) => match now_secs.checked_add(delta) {
            Some(secs) => format_utc_rfc3339(secs, now_nanos),
            None => None,
        },
        None => None,
    }
}

/// Generate the expiry timestamp (now + days). `None` where the expiry lies
/// beyond the dates that can be represented. An expiry in a four-digit year
/// reads back as exactly `days` days after the instant it was made at.
pub fn expiry_iso8601(days: i64) -> (r: Option<String>)
    ensures
        exists|secs: i64, nanos: u32|
            secs >= 0 && nanos < 1_000_000_000 && opt_text(r) == expiry_text(secs, nanos, days)
                && (readable_expiry(secs, days) ==> (r matches Some(t)
                && rfc3339_instant(t@) == Some((days_later(secs, days) as i64, nanos)))),
{
    let now = utc_now();
    expiry_after(now.0, now.1, days)
}

/// Whether an expiry instant (or its absence: an expiry that could not be
/// read) lies before the instant `now`.
pub open spec fn expired_at(expiry: Option<(i64, u32)>, now: (i64, u32)) -> bool {
    match expiry {
        None => true,
        Some(e) => now.0 > e.0 || (now.0 == e.0 && now.1 > e.1),
    }
}

/// Whether a proof whose expiry reads as `expiry` has expired at `now`.
pub fn is_expired_at(expiry: Option<(i64, u32)>, now: (i64, u32)) -> (r: bool)
    ensures
        r == expired_at(expiry, now),
{
    match expiry {
        None => true,
        Some(e) => now.0 > e.0 || (now.0 == e.0 && now.1 > e.1),
    }
}

/// Whether an instant is one that the clock can report: at or after 1970,
/// with its nanoseconds below one second.
pub open spec fn clock_reading(now: (i64, u32)) -> bool {
    now.0 >= 0 && now.1 < 1_000_000_000
}

/// Check if a proof has expired. An expiry that cannot be read is treated as
/// expired.
pub fn is_expired(expires: &str) -> (r: bool)
    ensures
        rfc3339_instant(expires@) is None ==> r,
        exists|now: (i64, u32)| clock_reading(now) && r == expired_at(rfc3339_instant(expires@), now),
{
    let expiry = parse_rfc3339(expires);
    match expiry {
        None => {
            assert(clock_reading((0i64, 0u32)) && expired_at(rfc3339_instant(expires@), (0i64, 0u32)));
            true
        },
        Some(_) => {
            let now = utc_now();
            let r = is_expired_at(expiry, now);
            assert(clock_reading(now) && r == expired_at(rfc3339_instant(expires@), now));
            r
        },
    }
}

} // verus!
