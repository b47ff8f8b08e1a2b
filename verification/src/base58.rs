//! Base58 text over the Bitcoin alphabet, computed by the `bs58` crate.
//!
//! The two conversions are not re-derived here. Each is given a name, and the
//! functions at the bottom of this file state, without proof, how the crate's
//! results relate to those names.

use vstd::prelude::*;

verus! {

/// True for the 58 characters of the Bitcoin alphabet: the ASCII digits and
/// letters without `0`, `I`, `O` and `l`.
pub open spec fn is_base58_char(c: char) -> bool {
    let code = c as u32;
    ||| 0x31 <= code <= 0x39
    ||| 0x41 <= code <= 0x48
    ||| 0x4a <= code <= 0x4e
    ||| 0x50 <= code <= 0x5a
    ||| 0x61 <= code <= 0x6b
    ||| 0x6d <= code <= 0x7a
}

/// True when every character of `text` belongs to the alphabet.
pub open spec fn is_base58_text(text: Seq<char>) -> bool {
    forall|i: int| 0 <= i < text.len() ==> is_base58_char(#[trigger] text[i])
}

/// The text that `bs58` writes for `bytes`.
pub uninterp spec fn base58_text(bytes: Seq<u8>) -> Seq<char>;

/// The bytes that `bs58` reads from `text`, where `text` is over the alphabet.
pub uninterp spec fn base58_value(text: Seq<char>) -> Seq<u8>;

/// What holds of the text written for `bytes`: it is over the alphabet and
/// reads back as `bytes`.
pub open spec fn base58_round_trips(bytes: Seq<u8>) -> bool {
    is_base58_text(base58_text(bytes)) && base58_value(base58_text(bytes)) == bytes
}

/// `bs58::decode::Error`, carried as an opaque value: nothing is read from it.
#[verifier::external_type_specification]
#[verifier::external_body]
pub struct ExBase58DecodeError(bs58::decode::Error);

/// Calls `bs58::encode(..).into_string()` with the default (Bitcoin) alphabet.
///
/// Trusted: the result is a function of the input bytes alone, it is made of
/// alphabet characters only, and decoding it gives the input back.
#[verifier::external_body]
pub(crate) fn encode_base58(bytes: &[u8]) -> (text: String)
    ensures
        text@ == base58_text(bytes@),
        is_base58_text(text@),
        base58_value(text@) == bytes@,
{
    bs58::encode(bytes).into_string()
}

/// Calls `bs58::decode(..).into_vec()` with the default (Bitcoin) alphabet.
///
/// Trusted: decoding fails exactly when some character is outside the
/// alphabet (the output buffer is sized from the input, so it is never too
/// small), and on success the bytes are a function of the text alone.
#[verifier::external_body]
pub(crate) fn decode_base58(text: &str) -> (decoded: Result<Vec<u8>, bs58::decode::Error>)
    ensures
        decoded is Ok <==> is_base58_text(text@),
        decoded matches Ok(bytes) ==> bytes@ == base58_value(text@),
{
    bs58::decode(text).into_vec()
}

} // verus!
