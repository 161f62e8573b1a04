//! Hexadecimal text and SHA-256: the payment hash of a preimage.

use vstd::prelude::*;

use crate::errors::{ErrorKind, HoldError};
use crate::text::{eq_ignore_ascii_case, spec_eq_ignore_ascii_case, spec_hex_digit_value};
use vstd::string::StringExecFns;

verus! {

/// The lower-case hexadecimal digit for a value below 16.
pub open spec fn spec_lower_hex_digit(d: int) -> char {
    if d == 0 { '0' } else if d == 1 { '1' } else if d == 2 { '2' } else if d == 3 { '3' }
    else if d == 4 { '4' } else if d == 5 { '5' } else if d == 6 { '6' } else if d == 7 { '7' }
    else if d == 8 { '8' } else if d == 9 { '9' } else if d == 10 { 'a' } else if d == 11 { 'b' }
    else if d == 12 { 'c' } else if d == 13 { 'd' } else if d == 14 { 'e' } else { 'f' }
}

/// Bytes as text: two lower-case hexadecimal digits for each byte, the high one first.
pub open spec fn spec_hex_encode(data: Seq<u8>) -> Seq<char>
    decreases data.len(),
{
    if data.len() == 0 {
        Seq::<char>::empty()
    } else {
        spec_hex_encode(data.drop_last()).push(spec_lower_hex_digit(data.last() as int / 16)).push(
            spec_lower_hex_digit(data.last() as int % 16),
        )
    }
}

/// The bytes that a hexadecimal text denotes: `None` where its length is odd
/// or a character is no hexadecimal digit; the digits may be of either case.
pub open spec fn spec_hex_decode(text: Seq<char>) -> Option<Seq<u8>>
    decreases text.len(),
{
    if text.len() == 0 {
        Some(Seq::<u8>::empty())
    } else if text.len() == 1 {
        None
    } else {
        match (
            spec_hex_decode(text.subrange(0, text.len() - 2)),
            spec_hex_digit_value(text[text.len() - 2]),
            spec_hex_digit_value(text[text.len() - 1]),
        ) {
            (Some(bytes), Some(high), Some(low)) => Some(bytes.push((high * 16 + low) as u8)),
            _ => None,
        }
    }
}

/// The SHA-256 digest of a sequence of bytes.
pub uninterp spec fn spec_sha256(data: Seq<u8>) -> Seq<u8>;

/// `hex::encode`: the text has two lower-case hexadecimal digits for each
/// byte of the input, in order, the high digit first.
#[verifier::external_body]
fn hex_encode(data: &Vec<u8>) -> (text: String)
    ensures
        text@ == spec_hex_encode(data@),
{
    hex::encode(data)
}

/// `hex::decode`: fails on a text of odd length and on a character that is no
/// hexadecimal digit; otherwise each pair of digits, of either case, gives one byte.
#[verifier::external_body]
fn hex_decode(text: &str) -> (bytes: Option<Vec<u8>>)
    ensures
        bytes is Some <==> spec_hex_decode(text@) is Some,
        bytes matches Some(b) ==> Some(b@) == spec_hex_decode(text@),
{
    hex::decode(text).ok()
}

/// `bitcoin::hashes::sha256::Hash::hash`: the digest of the bytes, which
/// depends on them alone.
#[verifier::external_body]
fn sha256(data: &Vec<u8>) -> (digest: Vec<u8>)
    ensures
        digest@ == spec_sha256(data@),
{
    let digest = <bitcoin::hashes::sha256::Hash as bitcoin::hashes::Hash>::hash(data);
    bitcoin::hashes::Hash::to_byte_array(digest).to_vec()
}

/// The payment hash of a preimage given in hexadecimal: the digest of its
/// bytes in lower-case hexadecimal. `None` where the preimage is no hexadecimal text.
pub open spec fn spec_payment_hash_of(preimage: Seq<char>) -> Option<Seq<char>> {
    match spec_hex_decode(preimage) {
        Some(bytes) => Some(spec_hex_encode(spec_sha256(bytes))),
        None => None,
    }
}

/// Does the preimage hash to the payment hash? The case of the payment
/// hash's digits does not matter.
pub open spec fn spec_preimage_matches(payment_hash: Seq<char>, preimage: Seq<char>) -> bool {
    spec_payment_hash_of(preimage) matches Some(hash) && spec_eq_ignore_ascii_case(
        payment_hash,
        hash,
    )
}

/// Decodes a hexadecimal text into bytes.
pub fn decode_hex(text: &str) -> (bytes: Option<Vec<u8>>)
    ensures
        bytes is Some <==> spec_hex_decode(text@) is Some,
        bytes matches Some(b) ==> Some(b@) == spec_hex_decode(text@),
{
    hex_decode(text)
}

/// Encodes bytes as lower-case hexadecimal text.
pub fn encode_hex(data: &Vec<u8>) -> (text: String)
    ensures
        text@ == spec_hex_encode(data@),
{
    hex_encode(data)
}

/// The text that the digest of `bytes` has as a payment hash.
pub fn payment_hash_of_bytes(bytes: &Vec<u8>) -> (hash: String)
    ensures
        hash@ == spec_hex_encode(spec_sha256(bytes@)),
{
    let digest = sha256(bytes);
    hex_encode(&digest)
}

/// The payment hash that belongs to a preimage; an error where the preimage
/// is no hexadecimal text.
pub fn payment_hash_of(preimage: &str) -> (hash: Result<String, HoldError>)
    ensures
        hash is Ok <==> spec_payment_hash_of(preimage@) is Some,
        hash matches Ok(h) ==> Some(h@) == spec_payment_hash_of(preimage@),
        hash matches Err(e) ==> e.kind == ErrorKind::InputError && e.message@
            == "preimage: should be hexadecimal: invalid token `"@ + preimage@ + "`"@,
{
    match hex_decode(preimage) {
        Some(bytes) => Ok(payment_hash_of_bytes(&bytes)),
        None => {
            let mut message = String::from_str("preimage: should be hexadecimal: invalid token `");
            message.append(preimage);
            message.append("`");
            Err(HoldError { kind: ErrorKind::InputError, message })
        },
    }
}

/// Tests whether a preimage hashes to a payment hash.
pub fn preimage_matches(payment_hash: &str, preimage: &str) -> (matches: bool)
    ensures
        matches == spec_preimage_matches(payment_hash@, preimage@),
{
    match payment_hash_of(preimage) {
        Ok(hash) => eq_ignore_ascii_case(payment_hash, hash.as_str()),
        Err(_) => false,
    }
}

} // verus!
