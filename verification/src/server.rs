//! The badge server's rules: which platforms badges are issued for, how
//! usernames are normalized, which submitted proofs earn a badge, and the
//! challenges and messages of a registration. Storage and HTTP are left to the
//! caller.

use vstd::prelude::*;
use vstd::string::*;
use crate::badge::{BadgeTier, ZAT_PER_ZEC, tier_of_balance, tier_display_text, tier_image, tier_level};
use crate::error::{Error, error_text};
use crate::challenge::{expired_at, rfc3339_instant, parse_rfc3339, utc_now, clock_reading, DEFAULT_EXPIRY_DAYS, SECS_PER_DAY};
use crate::orchard_proof::{verify_orchard_at, orchard_outcome};
use crate::text::{decimal, push_decimal, remove_char, str_equal, to_lowercase, trim, unicode_lowercase, unicode_trim, without_char, concat2, concat3, join, texts, join_strings, split_on, split_text};
use crate::challenge::opt_text;
use crate::transparent::{verify_transparent_at, transparent_outcome, timed_outcome};
use crate::types::{OwnershipProof, VerificationResult, Outcome, verdict_holds, tier_fits};

verus! {

/// Badge info returned by the API
#[derive(Debug, Clone)]
pub struct BadgeResponse {
    pub platform: String,
    pub username: String,
    pub badge_tier: u8,
    pub badge_name: String,
    pub badge_image: String,
    pub verified: bool,
    pub expires_at: String,
}

/// The network a request names when it names none.
pub fn default_network() -> (s: String)
    ensures
        s@ == "main"@,
{
    String::from_str("main")
}

/// The lightwalletd endpoint of a network.
pub open spec fn lwd_url(network: Seq<char>) -> Seq<char> {
    if network == "main"@ {
        "https://zec.rocks:443"@
    } else {
        "https://testnet.zec.rocks:443"@
    }
}

/// The lightwalletd endpoint of a network: mainnet for "main", testnet otherwise.
pub fn default_lwd_url(network: &str) -> (s: String)
    ensures
        s@ == lwd_url(network@),
{
    if str_equal(network, "main") {
        String::from_str("https://zec.rocks:443")
    } else {
        String::from_str("https://testnet.zec.rocks:443")
    }
}

/// A username without '@' characters, in lower case.
pub open spec fn normalized_username(username: Seq<char>) -> Seq<char> {
    unicode_lowercase(without_char(username, '@'))
}

/// Normalizes a username: drops every '@' and lowers the case.
pub fn normalize_username(username: &str) -> (s: String)
    ensures
        s@ == normalized_username(username@),
{
    let stripped = remove_char(username, '@');
    to_lowercase(stripped.as_str())
}

/// The platforms for which badges are issued.
pub fn valid_platforms() -> (p: [&'static str; 3])
    ensures
        p[0]@ == "x"@,
        p[1]@ == "bluesky"@,
        p[2]@ == "zcashforum"@,
{
    ["x", "bluesky", "zcashforum"]
}

/// Whether badges are issued for a platform.
pub open spec fn is_valid_platform(platform: Seq<char>) -> bool {
    platform == "x"@ || platform == "bluesky"@ || platform == "zcashforum"@
}

/// The message with which an unknown platform is refused.
pub open spec fn invalid_platform_message(platform: Seq<char>) -> Seq<char> {
    "Invalid platform '"@ + platform + "'. Valid: [\"x\", \"bluesky\", \"zcashforum\"]"@
}

/// Checks that badges are issued for the platform.
pub fn validate_platform(platform: &str) -> (r: Result<(), String>)
    ensures
        r is Ok <==> is_valid_platform(platform@),
        r matches Err(m) ==> m@ == invalid_platform_message(platform@),
{
    let valid = valid_platforms();
    let mut i: usize = 0;
    while i < 3
        invariant
            i <= 3,
            valid[0]@ == "x"@,
            valid[1]@ == "bluesky"@,
            valid[2]@ == "zcashforum"@,
            forall|j: int| 0 <= j < i ==> platform@ != valid[j]@,
        decreases 3 - i,
    {
        if str_equal(platform, valid[i]) {
            return Ok(());
        }
        i = i + 1;
    }
    Err(concat3("Invalid platform '", platform, "'. Valid: [\"x\", \"bluesky\", \"zcashforum\"]"))
}

/// The challenge that binds a proof to a username on a platform.
pub open spec fn challenge_for(platform: Seq<char>, username: Seq<char>) -> Seq<char> {
    platform + ":"@ + username
}

/// The challenge that binds a proof to a username on a platform.
pub fn platform_challenge(platform: &str, username: &str) -> (s: String)
    ensures
        s@ == challenge_for(platform@, username@),
{
    concat3(platform, ":", username)
}

/// Why a submitted proof is refused before any cryptographic check, if it is:
/// an unknown platform, a challenge other than "platform:username" (an empty
/// one included), or a proof type other than "transparent" and "orchard".
pub open spec fn submission_refusal(p: OwnershipProof, platform: Seq<char>, username: Seq<char>) -> Option<Seq<char>> {
    if !is_valid_platform(platform) {
        Some(invalid_platform_message(platform))
    } else if p.challenge@ != challenge_for(platform, username) {
        Some(
            "Challenge mismatch: proof has '"@ + p.challenge@ + "' but expected '"@
                + challenge_for(platform, username) + "'"@,
        )
    } else if p.proof_type@ != "transparent"@ && p.proof_type@ != "orchard"@ {
        Some("Unknown proof type: "@ + p.proof_type@)
    } else {
        None
    }
}

/// A proof bound by its challenge to one identity earns no badge for another:
/// a submission whose challenge is not "platform:username" is refused before
/// its proof is looked at.
pub proof fn lemma_challenge_binding(p: OwnershipProof, platform: Seq<char>, username: Seq<char>)
    requires
        p.challenge@ != challenge_for(platform, username),
    ensures
        submission_refusal(p, platform, username) is Some,
{
}

/// Badges are issued only for x, bluesky and zcashforum, for transparent and
/// Orchard proofs, and for the identity that the proof's challenge names.
pub proof fn lemma_only_known_platforms(p: OwnershipProof, platform: Seq<char>, username: Seq<char>)
    requires
        submission_refusal(p, platform, username) is None,
    ensures
        platform == "x"@ || platform == "bluesky"@ || platform == "zcashforum"@,
        p.proof_type@ == "transparent"@ || p.proof_type@ == "orchard"@,
        p.challenge@ == challenge_for(platform, username),
{
}

/// Checks a submission for a username on a platform before its proof is
/// verified.
pub fn check_submission(proof: &OwnershipProof, platform: &str, username: &str) -> (r: Result<(), String>)
    ensures
        r is Ok <==> submission_refusal(*proof, platform@, username@) is None,
        r matches Err(m) ==> submission_refusal(*proof, platform@, username@) == Some(m@),
{
    validate_platform(platform)?;
    let expected = platform_challenge(platform, username);
    if proof.challenge != expected {
        let mut m = concat3("Challenge mismatch: proof has '", proof.challenge.as_str(), "' but expected '");
        m.append(expected.as_str());
        m.append("'");
        return Err(m);
    }
    if !str_equal(proof.proof_type.as_str(), "transparent") && !str_equal(proof.proof_type.as_str(), "orchard") {
        return Err(concat2("Unknown proof type: ", proof.proof_type.as_str()));
    }
    Ok(())
}

/// The badge for a username on a platform, from a proof and what its
/// verification returned: a valid proof earns the tier it records; an invalid
/// one, or an error, is refused with the reason.
pub open spec fn badge_holds(
    r: Result<BadgeResponse, String>,
    p: OwnershipProof,
    platform: Seq<char>,
    username: Seq<char>,
    verification: Result<VerificationResult, Error>,
) -> bool {
    match verification {
        Ok(v) => if v.is_valid {
            let t = tier_of_balance((p.badge_tier as nat) * (ZAT_PER_ZEC as nat));
            r matches Ok(b) && {
                &&& b.platform@ == platform
                &&& b.username@ == username
                &&& b.badge_tier == tier_level(t)
                &&& b.badge_name@ == tier_display_text(t)
                &&& b.badge_image@ == tier_image(t)
                &&& b.verified
                &&& b.expires_at@ == p.expires@
            }
        } else {
            r matches Err(m) && m@ == "Proof invalid: "@ + v.message@
        },
        Err(e) => r matches Err(m) && m@ == "Verification error: "@ + error_text(e),
    }
}

/// The badge that a verified proof earns, or the reason it earns none.
pub fn badge_from_verification(
    proof: &OwnershipProof,
    platform: &str,
    username: &str,
    verification: Result<VerificationResult, Error>,
) -> (r: Result<BadgeResponse, String>)
    requires
        verification matches Ok(v) && v.is_valid ==> tier_fits(proof.badge_tier),
    ensures
        badge_holds(r, *proof, platform@, username@, verification),
{
    match verification {
        Ok(vr) => {
            if vr.is_valid {
                let tier = BadgeTier::from_balance(proof.badge_tier * ZAT_PER_ZEC);
                Ok(BadgeResponse {
                    platform: String::from_str(platform),
                    username: String::from_str(username),
                    badge_tier: tier.level(),
                    badge_name: String::from_str(tier.display_text()),
                    badge_image: String::from_str(tier.image_filename()),
                    verified: true,
                    expires_at: proof.expires.clone(),
                })
            } else {
                Err(concat2("Proof invalid: ", vr.message.as_str()))
            }
        },
        Err(e) => {
            let text = e.display_text();
            Err(concat2("Verification error: ", text.as_str()))
        },
    }
}

/// The message with which a submission that earned the badge `badge_name` is
/// answered.
pub fn verified_message(badge_name: &str) -> (s: String)
    ensures
        s@ == "Proof verified! Badge: "@ + badge_name@,
{
    concat2("Proof verified! Badge: ", badge_name)
}

/// What checking a transparent or Orchard proof comes to, by its type.
pub open spec fn proof_outcome(p: OwnershipProof) -> Outcome {
    if p.proof_type@ == "transparent"@ {
        transparent_outcome(p)
    } else {
        orchard_outcome(p)
    }
}

/// Whether `v` is what verifying the transparent or Orchard proof `p` returns
/// at the instant `now`.
pub open spec fn verification_at(v: Option<Result<VerificationResult, Error>>, p: OwnershipProof, now: (i64, u32)) -> bool {
    verdict_holds(
        v,
        p.address@,
        p.block_height,
        p.badge_tier,
        timed_outcome(expired_at(rfc3339_instant(p.expires@), now), proof_outcome(p)),
    )
}

/// Verifies a transparent or Orchard proof, by its type, at the instant
/// `now`. Returns `None` where the proof is valid but its recorded tier
/// overflows when scaled to zatoshis.
pub fn verify_proof_at(proof: &OwnershipProof, now: (i64, u32)) -> (r: Option<Result<VerificationResult, Error>>)
    requires
        proof.proof_type@ == "transparent"@ || proof.proof_type@ == "orchard"@,
    ensures
        verification_at(r, *proof, now),
{
    if str_equal(proof.proof_type.as_str(), "transparent") {
        verify_transparent_at(proof, now)
    } else {
        verify_orchard_at(proof, now)
    }
}

/// Verifies a transparent or Orchard proof, by its type, at the current time.
pub fn verify_proof(proof: &OwnershipProof) -> (r: Option<Result<VerificationResult, Error>>)
    requires
        proof.proof_type@ == "transparent"@ || proof.proof_type@ == "orchard"@,
    ensures
        exists|now: (i64, u32)| clock_reading(now) && verification_at(r, *proof, now),
{
    let now = utc_now();
    let r = verify_proof_at(proof, now);
    assert(clock_reading(now));
    r
}

/// Whether an expiry text reads as an instant at most the default expiry
/// period (30 days) after `now`.
pub open spec fn expiry_within_period(expires: Seq<char>, now: (i64, u32)) -> bool {
    match rfc3339_instant(expires) {
        Some(e) => {
            let limit = now.0 + DEFAULT_EXPIRY_DAYS * SECS_PER_DAY;
            e.0 < limit || (e.0 == limit && e.1 <= now.1)
        },
        None => false,
    }
}

/// Whether an expiry text reads as an instant at most 30 days after `now`.
fn expires_within_period(expires: &str, now: (i64, u32)) -> (b: bool)
    ensures
        b == expiry_within_period(expires@, now),
{
    match parse_rfc3339(expires) {
        None => false,
        Some(e) => match now.0.checked_add(DEFAULT_EXPIRY_DAYS * SECS_PER_DAY) {
            None => true,
            Some(limit) => e.0 < limit || (e.0 == limit && e.1 <= now.1),
        },
    }
}

/// The message with which a valid proof whose expiry lies more than 30 days
/// ahead is refused.
pub open spec fn expiry_too_far_message() -> Seq<char> {
    "Proof expires more than 30 days from now"@
}

/// What a submission at `now` that passed the refusal checks returns, given
/// what the verification of its proof returned: a valid proof whose expiry
/// lies more than 30 days ahead earns no badge; otherwise as `badge_holds`.
pub open spec fn submission_holds(
    r: Result<BadgeResponse, String>,
    p: OwnershipProof,
    platform: Seq<char>,
    username: Seq<char>,
    verification: Result<VerificationResult, Error>,
    now: (i64, u32),
) -> bool {
    if verification matches Ok(v) && v.is_valid && !expiry_within_period(p.expires@, now) {
        r matches Err(m) && m@ == expiry_too_far_message()
    } else {
        badge_holds(r, p, platform, username, verification)
    }
}

/// What a submission of `p` for `username` on `platform` at `now` returns.
pub open spec fn submission_at(
    r: Option<Result<BadgeResponse, String>>,
    p: OwnershipProof,
    platform: Seq<char>,
    username: Seq<char>,
    now: (i64, u32),
) -> bool {
    match submission_refusal(p, platform, username) {
        Some(m) => r matches Some(Err(e)) && e@ == m,
        None => exists|v: Option<Result<VerificationResult, Error>>|
            verification_at(v, p, now) && match v {
                None => r is None,
                Some(x) => r matches Some(b) && submission_holds(b, p, platform, username, x, now),
            },
    }
}

/// A proof whose expiry lies before the instant of the submission (or cannot
/// be read) earns no badge: the submission is refused as an invalid proof that
/// has expired, or for the reason checked before the proof.
pub proof fn lemma_expired_submission_earns_nothing(
    r: Option<Result<BadgeResponse, String>>,
    p: OwnershipProof,
    platform: Seq<char>,
    username: Seq<char>,
    now: (i64, u32),
)
    requires
        submission_at(r, p, platform, username, now),
        expired_at(rfc3339_instant(p.expires@), now),
    ensures
        r matches Some(Err(m)),
        submission_refusal(p, platform, username) is None ==> (r matches Some(Err(m))
            && m@ == "Proof invalid: "@ + "Proof has expired"@),
{
    if submission_refusal(p, platform, username) is None {
        let v = choose|v: Option<Result<VerificationResult, Error>>|
            verification_at(v, p, now) && match v {
                None => r is None,
                Some(x) => r matches Some(b) && submission_holds(b, p, platform, username, x, now),
            };
        assert(v matches Some(Ok(vr)) && !vr.is_valid);
    }
}

/// Verifies a proof submitted for a username on a platform at the instant
/// `now` and returns the badge it earns (to be stored), or the reason it earns
/// none. A badge is issued only for a proof that has not expired and whose
/// expiry lies at most 30 days ahead. Returns `None` where the proof is valid
/// but its recorded tier overflows when scaled to zatoshis.
pub fn verify_submission_at(
    proof: &OwnershipProof,
    platform: &str,
    username: &str,
    now: (i64, u32),
) -> (r: Option<Result<BadgeResponse, String>>)
    ensures
        submission_at(r, *proof, platform@, username@, now),
        r matches Some(Ok(b)) ==> {
            &&& b.expires_at@ == proof.expires@
            &&& !expired_at(rfc3339_instant(b.expires_at@), now)
            &&& expiry_within_period(b.expires_at@, now)
        },
{
    match check_submission(proof, platform, username) {
        Err(m) => {
            return Some(Err(m));
        },
        Ok(()) => {},
    }
    let verification = verify_proof_at(proof, now);
    match verification {
        None => None,
        Some(x) => {
            let valid = match &x {
                Ok(v) => v.is_valid,
                Err(_) => false,
            };
            let r = if valid && !expires_within_period(proof.expires.as_str(), now) {
                Err(String::from_str("Proof expires more than 30 days from now"))
            } else {
                badge_from_verification(proof, platform, username, x)
            };
            assert(submission_holds(r, *proof, platform@, username@, x, now));
            Some(r)
        },
    }
}

/// Verifies a proof submitted for a username on a platform at the current
/// time.
pub fn verify_submission(proof: &OwnershipProof, platform: &str, username: &str) -> (r: Option<Result<BadgeResponse, String>>)
    ensures
        exists|now: (i64, u32)| clock_reading(now) && submission_at(r, *proof, platform@, username@, now) && (
            r matches Some(Ok(b)) ==> {
                &&& b.expires_at@ == proof.expires@
                &&& !expired_at(rfc3339_instant(b.expires_at@), now)
                &&& expiry_within_period(b.expires_at@, now)
            }),
{
    let now = utc_now();
    let r = verify_submission_at(proof, platform, username, now);
    assert(clock_reading(now));
    r
}

// ── Registration ──

/// The (platform, username) pairs of a list.
pub open spec fn pair_texts(v: Seq<(String, String)>) -> Seq<(Seq<char>, Seq<char>)> {
    Seq::new(v.len(), |i: int| (v[i].0@, v[i].1@))
}

/// The registration that an optional username makes on a platform: none when
/// it is absent or blank, else the normalized username.
pub open spec fn registration_entry(platform: Seq<char>, username: Option<Seq<char>>) -> Seq<(Seq<char>, Seq<char>)> {
    match username {
        Some(u) => if unicode_trim(u).len() == 0 {
            Seq::empty()
        } else {
            seq![(platform, normalized_username(u))]
        },
        None => Seq::empty(),
    }
}

/// The registrations of a request, in the order x, zcashforum, bluesky.
pub open spec fn registration_list(
    x: Option<Seq<char>>,
    zcashforum: Option<Seq<char>>,
    bluesky: Option<Seq<char>>,
) -> Seq<(Seq<char>, Seq<char>)> {
    registration_entry("x"@, x) + registration_entry("zcashforum"@, zcashforum)
        + registration_entry("bluesky"@, bluesky)
}

/// Adds the registration of an optional username on a platform.
fn add_registration(list: &mut Vec<(String, String)>, platform: &str, username: &Option<String>)
    ensures
        pair_texts(final(list)@) == pair_texts(old(list)@) + registration_entry(platform@, opt_text(*username)),
{
    let ghost old_list = list@;
    match username {
        Some(u) => {
            let t = trim(u.as_str());
            if t.unicode_len() != 0 {
                list.push((String::from_str(platform), normalize_username(u.as_str())));
                assert(pair_texts(list@) =~= pair_texts(old_list) + registration_entry(platform@, opt_text(*username)));
            } else {
                assert(pair_texts(list@) =~= pair_texts(old_list) + registration_entry(platform@, opt_text(*username)));
            }
        },
        None => {
            assert(pair_texts(list@) =~= pair_texts(old_list) + registration_entry(platform@, opt_text(*username)));
        },
    }
}

/// The platforms and normalized usernames that a registration request names.
/// Blank usernames are skipped.
pub fn registration_platforms(
    x: &Option<String>,
    zcashforum: &Option<String>,
    bluesky: &Option<String>,
) -> (r: Vec<(String, String)>)
    ensures
        pair_texts(r@) == registration_list(opt_text(*x), opt_text(*zcashforum), opt_text(*bluesky)),
{
    let mut list: Vec<(String, String)> = Vec::new();
    assert(pair_texts(list@) =~= Seq::<(Seq<char>, Seq<char>)>::empty());
    add_registration(&mut list, "x", x);
    add_registration(&mut list, "zcashforum", zcashforum);
    add_registration(&mut list, "bluesky", bluesky);
    assert(pair_texts(list@) =~= registration_list(opt_text(*x), opt_text(*zcashforum), opt_text(*bluesky)));
    list
}

/// The challenges "platform:username" of a list of registrations.
pub open spec fn challenges_of(pairs: Seq<(Seq<char>, Seq<char>)>) -> Seq<Seq<char>> {
    Seq::new(pairs.len(), |i: int| challenge_for(pairs[i].0, pairs[i].1))
}

/// The challenge of a proof that covers all registrations at once: their
/// challenges joined with '|'.
pub fn combined_challenge(platforms: &Vec<(String, String)>) -> (s: String)
    ensures
        s@ == join(challenges_of(pair_texts(platforms@)), "|"@),
{
    let mut parts: Vec<String> = Vec::new();
    let mut i: usize = 0;
    while i < platforms.len()
        invariant
            i <= platforms@.len(),
            texts(parts@) == challenges_of(pair_texts(platforms@)).take(i as int),
        decreases platforms@.len() - i,
    {
        let c = platform_challenge(platforms[i].0.as_str(), platforms[i].1.as_str());
        let ghost old_parts = parts@;
        parts.push(c);
        assert(texts(parts@) =~= texts(old_parts).push(c@));
        assert(pair_texts(platforms@)[i as int] == (platforms@[i as int].0@, platforms@[i as int].1@));
        i = i + 1;
        assert(texts(parts@) =~= challenges_of(pair_texts(platforms@)).take(i as int));
    }
    assert(challenges_of(pair_texts(platforms@)).take(platforms@.len() as int) =~= challenges_of(pair_texts(platforms@)));
    join_strings(&parts, "|")
}

/// The report of a registration that failed on one platform.
pub fn registration_error(platform: &str, username: &str, error: &str) -> (s: String)
    ensures
        s@ == challenge_for(platform@, username@) + " — "@ + error@,
{
    let mut s = concat3(platform, ":", username);
    s.append(" — ");
    s.append(error);
    s
}

/// The message of a registration that registered `count` badges, with the
/// failures of the other platforms.
pub open spec fn registration_summary(count: nat, errors: Seq<Seq<char>>) -> Seq<char> {
    if errors.len() == 0 {
        "Registered "@ + decimal(count)
            + " badge(s). Install the Chrome extension to see them on social platforms."@
    } else {
        "Registered "@ + decimal(count) + " badge(s). Some platforms failed: "@ + join(errors, "; "@)
    }
}

/// The message of a registration that registered `count` badges.
pub fn registration_message(count: usize, errors: &Vec<String>) -> (s: String)
    ensures
        s@ == registration_summary(count as nat, texts(errors@)),
{
    let mut s = String::from_str("Registered ");
    push_decimal(&mut s, count as u64);
    if errors.len() == 0 {
        s.append(" badge(s). Install the Chrome extension to see them on social platforms.");
    } else {
        s.append(" badge(s). Some platforms failed: ");
        let joined = join_strings(errors, "; ");
        s.append(joined.as_str());
    }
    s
}

/// The outcome of a registration that registered `count` badges, with the
/// failures of the other platforms: it succeeds if any badge was registered;
/// otherwise its message is the failures joined with "; ".
pub fn registration_result(count: usize, errors: &Vec<String>) -> (r: (bool, String))
    ensures
        r.0 == (count > 0),
        r.1@ == if count > 0 {
            registration_summary(count as nat, texts(errors@))
        } else {
            join(texts(errors@), "; "@)
        },
{
    if count == 0 {
        (false, join_strings(errors, "; "))
    } else {
        (true, registration_message(count, errors))
    }
}

/// The usernames of a batch lookup: the comma-separated pieces, trimmed.
pub open spec fn lookup_usernames(usernames: Seq<char>) -> Seq<Seq<char>> {
    Seq::new(split_on(usernames, ',').len(), |i: int| unicode_trim(split_on(usernames, ',')[i]))
}

/// Splits the usernames of a batch lookup.
pub fn parse_usernames(usernames: &str) -> (r: Vec<String>)
    ensures
        texts(r@) == lookup_usernames(usernames@),
{
    let pieces = split_text(usernames, ',');
    let mut out: Vec<String> = Vec::new();
    let mut i: usize = 0;
    while i < pieces.len()
        invariant
            i <= pieces@.len(),
            texts(pieces@) == split_on(usernames@, ','),
            texts(out@) == lookup_usernames(usernames@).take(i as int),
        decreases pieces@.len() - i,
    {
        let t = trim(pieces[i].as_str());
        let ghost old_out = out@;
        out.push(String::from_str(t));
        assert(texts(out@) =~= texts(old_out).push(t@));
        assert(split_on(usernames@, ',')[i as int] == pieces@[i as int]@);
        i = i + 1;
        assert(texts(out@) =~= lookup_usernames(usernames@).take(i as int));
    }
    assert(lookup_usernames(usernames@).take(pieces@.len() as int) =~= lookup_usernames(usernames@));
    out
}

} // verus!
