//! The hash functions and byte encodings that proofs are built from.
//! Each is computed by an outside crate; the contracts here say what the
//! library relies on of each call.

use vstd::prelude::*;
use vstd::string::*;
use vstd::utf8::*;
use crate::text::{hex_lower, hex_decodable, hex_decoded};

verus! {

/// BLAKE2b with a 16-byte personalization, a key (empty for none) and a 32-byte
/// output, as computed by `blake2b_simd`.
pub uninterp spec fn blake2b_256(personal: Seq<u8>, key: Seq<u8>, data: Seq<u8>) -> Seq<u8>;

/// SHA-256, as computed by `sha2`.
pub uninterp spec fn sha256(data: Seq<u8>) -> Seq<u8>;

/// RIPEMD-160, as computed by `ripemd`.
pub uninterp spec fn ripemd160(data: Seq<u8>) -> Seq<u8>;

/// The Base58Check text of a payload (Bitcoin alphabet, 4-byte double SHA-256
/// checksum appended), as computed by `bs58`.
pub uninterp spec fn base58check(payload: Seq<u8>) -> Seq<char>;

/// The message of the error that `hex::decode` reports for a text of even length
/// that holds a byte that is not a hexadecimal digit.
pub uninterp spec fn hex_invalid_character_message(text: Seq<u8>) -> Seq<char>;

/// Whether a text is a hexadecimal text (checked on its UTF-8 bytes).
pub open spec fn hex_text_ok(text: Seq<char>) -> bool {
    hex_decodable(encode_utf8(text))
}

/// The bytes that a hexadecimal text stands for.
pub open spec fn hex_text_bytes(text: Seq<char>) -> Seq<u8> {
    hex_decoded(encode_utf8(text))
}

/// The message with which `hex::decode` refuses a text.
pub open spec fn hex_error_message(text: Seq<char>) -> Seq<char> {
    if encode_utf8(text).len() % 2 == 1 {
        "Odd number of digits"@
    } else {
        hex_invalid_character_message(encode_utf8(text))
    }
}

/// `blake2b_simd::Params::new().personal(personal).hash_length(32).key(key).hash(data)`.
/// The contract names the 32-byte digest; the crate documents that an empty key
/// is the same as no key.
#[verifier::external_body]
pub(crate) fn blake2b_256_digest(personal: &[u8; 16], key: &[u8], data: &[u8]) -> (h: [u8; 32])
    requires
        key@.len() <= 64,
    ensures
        h@ == blake2b_256(personal@, key@, data@),
{
    let hash = blake2b_simd::Params::new().personal(personal).hash_length(32).key(key).hash(data);
    let mut out = [0u8; 32];
    out.copy_from_slice(hash.as_bytes());
    out
}

/// `sha2::Sha256::digest(data)`; the contract names the 32-byte digest.
#[verifier::external_body]
pub(crate) fn sha256_digest(data: &[u8]) -> (h: [u8; 32])
    ensures
        h@ == sha256(data@),
{
    let d = <sha2::Sha256 as sha2::Digest>::digest(data);
    let mut out = [0u8; 32];
    out.copy_from_slice(&d);
    out
}

/// `ripemd::Ripemd160::digest(data)`; the contract names the 20-byte digest.
#[verifier::external_body]
pub(crate) fn ripemd160_digest(data: &[u8]) -> (h: [u8; 20])
    ensures
        h@ == ripemd160(data@),
{
    let d = <ripemd::Ripemd160 as ripemd::Digest>::digest(data);
    let mut out = [0u8; 20];
    out.copy_from_slice(&d);
    out
}

/// `bs58::encode(payload).with_check().into_string()`; the contract names the text.
#[verifier::external_body]
pub(crate) fn base58check_encode(payload: &[u8]) -> (s: String)
    ensures
        s@ == base58check(payload@),
{
    bs58::encode(payload).with_check().into_string()
}

/// `hex::encode(bytes)`: two lower-case hexadecimal digits per byte.
#[verifier::external_body]
pub(crate) fn hex_encode(bytes: &[u8]) -> (s: String)
    ensures
        s@ == hex_lower(bytes@),
{
    hex::encode(bytes)
}

/// `hex::decode(text)`, with the error rendered by its `Display`. It decodes
/// the UTF-8 bytes of the text; it succeeds exactly on an even number of
/// hexadecimal digits (of either case), and an odd number of bytes is reported
/// as "Odd number of digits" before any digit is looked at. The message for a
/// bad digit is named, not stated.
#[verifier::external_body]
pub(crate) fn hex_decode(text: &str) -> (r: Result<Vec<u8>, String>)
    ensures
        r is Ok <==> hex_text_ok(text@),
        r matches Ok(v) ==> v@ == hex_text_bytes(text@),
        r matches Err(m) ==> m@ == hex_error_message(text@),
        r matches Err(m) ==> (encode_utf8(text@).len() % 2 == 0
            ==> m@ == hex_invalid_character_message(encode_utf8(text@))),
{
    match hex::decode(text) {
        Ok(v) => Ok(v),
        Err(e) => Err(e.to_string()),
    }
}

} // verus!
