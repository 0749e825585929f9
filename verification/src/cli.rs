//! The command-line verifier's rules: how a proof's challenge is formed from
//! the options given, which registrations a `register` command makes, and the
//! unified address under which an Orchard address is shown.

use vstd::prelude::*;
use vstd::string::*;
use vstd::utf8::*;
use zcash_address::unified::Encoding;
use crate::challenge::opt_text;
use crate::digest::{hex_decode, hex_text_ok, hex_text_bytes};
use crate::server::{challenge_for, normalized_username, normalize_username, pair_texts};
use crate::text::{str_equal, concat3, unicode_lowercase, to_lowercase};

verus! {

/// The challenge of a proof: "platform:username" when both are given, else
/// the challenge given (possibly empty).
pub open spec fn challenge_of_options(challenge: Seq<char>, platform: Option<Seq<char>>, username: Option<Seq<char>>) -> Seq<char> {
    match (platform, username) {
        (Some(p), Some(u)) => challenge_for(p, u),
        _ => challenge,
    }
}

/// Forms the challenge of a proof from the command-line options.
pub fn build_challenge(challenge: &str, platform: &Option<String>, username: &Option<String>) -> (s: String)
    ensures
        s@ == challenge_of_options(challenge@, opt_text(*platform), opt_text(*username)),
{
    match (platform, username) {
        (Some(p), Some(u)) => concat3(p.as_str(), ":", u.as_str()),
        _ => {
            if challenge.unicode_len() != 0 {
                String::from_str(challenge)
            } else {
                String::new()
            }
        },
    }
}

/// A platform option in lower case.
pub fn normalize_platform(platform: &Option<String>) -> (r: Option<String>)
    ensures
        opt_text(r) == match opt_text(*platform) {
            Some(p) => Some(unicode_lowercase(p)),
            None => None,
        },
{
    match platform {
        Some(p) => Some(to_lowercase(p.as_str())),
        None => None,
    }
}

/// A username option normalized (no '@', lower case).
pub fn normalize_username_option(username: &Option<String>) -> (r: Option<String>)
    ensures
        opt_text(r) == match opt_text(*username) {
            Some(u) => Some(normalized_username(u)),
            None => None,
        },
{
    match username {
        Some(u) => Some(normalize_username(u.as_str())),
        None => None,
    }
}

/// The registration that an optional username makes on a platform from the
/// command line: the normalized username whenever one is given.
pub open spec fn cli_entry(platform: Seq<char>, username: Option<Seq<char>>) -> Seq<(Seq<char>, Seq<char>)> {
    match username {
        Some(u) => seq![(platform, normalized_username(u))],
        None => Seq::empty(),
    }
}

/// The registrations of a `register` command, in the order x, zcashforum, bluesky.
pub open spec fn cli_registration_list(
    x: Option<Seq<char>>,
    zcashforum: Option<Seq<char>>,
    bluesky: Option<Seq<char>>,
) -> Seq<(Seq<char>, Seq<char>)> {
    cli_entry("x"@, x) + cli_entry("zcashforum"@, zcashforum) + cli_entry("bluesky"@, bluesky)
}

/// Adds the registration of an optional username on a platform.
fn add_cli_registration(list: &mut Vec<(String, String)>, platform: &str, username: &Option<String>)
    ensures
        pair_texts(final(list)@) == pair_texts(old(list)@) + cli_entry(platform@, opt_text(*username)),
{
    let ghost old_list = list@;
    match username {
        Some(u) => {
            list.push((String::from_str(platform), normalize_username(u.as_str())));
        },
        None => {},
    }
    assert(pair_texts(list@) =~= pair_texts(old_list) + cli_entry(platform@, opt_text(*username)));
}

/// The platforms and normalized usernames of a `register` command.
pub fn cli_registrations(
    x: &Option<String>,
    zcashforum: &Option<String>,
    bluesky: &Option<String>,
) -> (r: Vec<(String, String)>)
    ensures
        pair_texts(r@) == cli_registration_list(opt_text(*x), opt_text(*zcashforum), opt_text(*bluesky)),
{
    let mut list: Vec<(String, String)> = Vec::new();
    assert(pair_texts(list@) =~= Seq::<(Seq<char>, Seq<char>)>::empty());
    add_cli_registration(&mut list, "x", x);
    add_cli_registration(&mut list, "zcashforum", zcashforum);
    add_cli_registration(&mut list, "bluesky", bluesky);
    assert(pair_texts(list@) =~= cli_registration_list(opt_text(*x), opt_text(*zcashforum), opt_text(*bluesky)));
    list
}

/// The ZIP 316 unified address (revision 0) whose only receiver is a raw
/// Orchard address, encoded for mainnet or testnet, as `zcash_address`
/// writes it; `None` where it refuses to build one.
pub uninterp spec fn unified_address_text(raw: Seq<u8>, mainnet: bool) -> Option<Seq<char>>;

/// `unified::Address::try_from_items(Revision::R0, [Orchard(raw)])` then
/// `encode` for the main network (`true`) or the test network (`false`). The
/// source accepts a single Orchard receiver (a shielded data item with a
/// small typecode), so the address is always built.
#[verifier::external_body]
fn orchard_unified_address(raw: &[u8; 43], mainnet: bool) -> (r: Option<String>)
    ensures
        opt_text(r) == unified_address_text(raw@, mainnet),
        r is Some,
{
    let net = if mainnet {
        zcash_protocol::consensus::NetworkType::Main
    } else {
        zcash_protocol::consensus::NetworkType::Test
    };
    let item = zcash_address::unified::Uitem::Data(zcash_address::unified::Receiver::Orchard(*raw));
    match zcash_address::unified::Address::try_from_items(zcash_address::unified::Revision::R0, vec![item]) {
        Ok(ua) => Some(ua.encode(&net)),
        Err(_) => None,
    }
}

/// The unified address of a hex raw Orchard address on a network ("main" for
/// mainnet, anything else for testnet); `None` unless the text is the hex of
/// 43 bytes.
pub open spec fn unified_address_of_hex(hex_addr: Seq<char>, network: Seq<char>) -> Option<Seq<char>> {
    if hex_text_ok(hex_addr) && hex_text_bytes(hex_addr).len() == 43 {
        unified_address_text(hex_text_bytes(hex_addr), network == "main"@)
    } else {
        None
    }
}

/// Encodes a hex raw Orchard address as a unified address; there is one
/// exactly where the text is the hex of 43 bytes.
pub fn encode_unified_address(hex_addr: &str, network: &str) -> (r: Option<String>)
    ensures
        opt_text(r) == unified_address_of_hex(hex_addr@, network@),
        r is Some <==> (hex_text_ok(hex_addr@) && hex_text_bytes(hex_addr@).len() == 43),
{
    let addr_bytes = match hex_decode(hex_addr) {
        Ok(b) => b,
        Err(_) => {
            return None;
        },
    };
    if addr_bytes.len() != 43 {
        return None;
    }
    let mut raw = [0u8; 43];
    let mut i: usize = 0;
    while i < 43
        invariant
            i <= 43,
            addr_bytes@.len() == 43,
            forall|j: int| 0 <= j < i ==> raw@[j] == addr_bytes@[j],
        decreases 43 - i,
    {
        raw[i] = addr_bytes[i];
        i = i + 1;
    }
    assert(raw@ =~= addr_bytes@);
    orchard_unified_address(&raw, str_equal(network, "main"))
}

/// The address under which a raw Orchard address (in hex) is shown: its
/// unified address where there is one, else the hex text itself.
pub fn shown_address(hex_addr: &str, network: &str) -> (s: String)
    ensures
        s@ == match unified_address_of_hex(hex_addr@, network@) {
            Some(u) => u,
            None => hex_addr@,
        },
{
    match encode_unified_address(hex_addr, network) {
        Some(u) => u,
        None => String::from_str(hex_addr),
    }
}

} // verus!
