//! The fixed binary layout that encoded errors are built from: little-endian
//! 32-bit tags, little-endian 64-bit lengths, and strings written as a
//! length followed by that many bytes of UTF-8.

use vstd::prelude::*;
use vstd::slice::{slice_subrange, slice_to_vec};
use vstd::utf8::{
    decode_utf8, encode_utf8, encode_utf8_decode_utf8, encode_utf8_valid_utf8, valid_utf8,
};

verus! {

/// The number that the first four bytes of `bytes` hold, low byte first.
pub open spec fn spec_u32_from_le(bytes: Seq<u8>) -> int
    recommends
        bytes.len() >= 4,
{
    bytes[0] + bytes[1] * 0x100 + bytes[2] * 0x1_0000 + bytes[3] * 0x100_0000
}

/// The four bytes of `value`, low byte first.
pub open spec fn spec_u32_to_le(value: u32) -> Seq<u8> {
    seq![
        (value % 0x100) as u8,
        (value / 0x100 % 0x100) as u8,
        (value / 0x1_0000 % 0x100) as u8,
        (value / 0x100_0000 % 0x100) as u8,
    ]
}

/// The number that the first eight bytes of `bytes` hold, low byte first.
pub open spec fn spec_u64_from_le(bytes: Seq<u8>) -> int
    recommends
        bytes.len() >= 8,
{
    spec_u32_from_le(bytes) + 0x1_0000_0000 * spec_u32_from_le(bytes.skip(4))
}

/// The eight bytes of `value`, low byte first.
pub open spec fn spec_u64_to_le(value: u64) -> Seq<u8> {
    spec_u32_to_le((value % 0x1_0000_0000) as u32) + spec_u32_to_le(
        (value / 0x1_0000_0000) as u32,
    )
}

/// A string on the wire: the length of its UTF-8 form as a 64-bit number,
/// then the UTF-8 bytes.
pub open spec fn spec_string_to_bytes(text: Seq<char>) -> Seq<u8> {
    spec_u64_to_le(encode_utf8(text).len() as u64) + encode_utf8(text)
}

/// Reads one string from the front of `bytes`: the string and the bytes that
/// follow it, or `None` where the length is cut short, announces more bytes
/// than there are, or the bytes are not UTF-8.
pub open spec fn spec_read_string(bytes: Seq<u8>) -> Option<(Seq<char>, Seq<u8>)> {
    if bytes.len() < 8 {
        None
    } else {
        let len = spec_u64_from_le(bytes);
        let body = bytes.subrange(8, 8 + len);
        if bytes.len() - 8 < len || !valid_utf8(body) {
            None
        } else {
            Some((decode_utf8(body), bytes.skip(8 + len)))
        }
    }
}

/// Reading back the four bytes of a number gives the number, whatever follows.
pub proof fn lemma_u32_round_trip(value: u32, rest: Seq<u8>)
    ensures
        spec_u32_to_le(value).len() == 4,
        spec_u32_from_le(spec_u32_to_le(value) + rest) == value,
        (spec_u32_to_le(value) + rest).skip(4) == rest,
{
    let bytes = spec_u32_to_le(value) + rest;
    assert(bytes[0] == spec_u32_to_le(value)[0]);
    assert(bytes[1] == spec_u32_to_le(value)[1]);
    assert(bytes[2] == spec_u32_to_le(value)[2]);
    assert(bytes[3] == spec_u32_to_le(value)[3]);
    assert(bytes.skip(4) =~= rest);
}

/// Reading back the eight bytes of a number gives the number, whatever follows.
pub proof fn lemma_u64_round_trip(value: u64, rest: Seq<u8>)
    ensures
        spec_u64_to_le(value).len() == 8,
        spec_u64_from_le(spec_u64_to_le(value) + rest) == value,
        (spec_u64_to_le(value) + rest).skip(8) == rest,
{
    let low = (value % 0x1_0000_0000) as u32;
    let high = (value / 0x1_0000_0000) as u32;
    let bytes = spec_u64_to_le(value) + rest;
    lemma_u32_round_trip(high, rest);
    lemma_u32_round_trip(low, spec_u32_to_le(high) + rest);
    assert(bytes =~= spec_u32_to_le(low) + (spec_u32_to_le(high) + rest));
    assert(bytes.skip(8) =~= rest);
}

/// Reading back a written string gives the string and leaves what followed it.
pub proof fn lemma_string_round_trip(text: Seq<char>, rest: Seq<u8>)
    requires
        encode_utf8(text).len() <= u64::MAX,
    ensures
        spec_read_string(spec_string_to_bytes(text) + rest) == Some((text, rest)),
{
    let body = encode_utf8(text);
    let len = body.len() as u64;
    let bytes = spec_string_to_bytes(text) + rest;
    lemma_u64_round_trip(len, body + rest);
    assert(bytes =~= spec_u64_to_le(len) + (body + rest));
    assert(bytes.subrange(8, 8 + len) =~= body);
    assert(bytes.skip(8 + len) =~= rest);
    encode_utf8_valid_utf8(text);
    encode_utf8_decode_utf8(text);
}

/// A written string that is cut short cannot be read.
pub proof fn lemma_cut_string_is_unreadable(text: Seq<char>, len: int)
    requires
        encode_utf8(text).len() <= u64::MAX,
        0 <= len < spec_string_to_bytes(text).len(),
    ensures
        spec_read_string(spec_string_to_bytes(text).take(len)) is None,
{
    let body = encode_utf8(text);
    let whole = spec_string_to_bytes(text);
    let cut = whole.take(len);
    lemma_u64_round_trip(body.len() as u64, body);
    if len >= 8 {
        assert(cut[0] == whole[0] && cut[1] == whole[1] && cut[2] == whole[2] && cut[3]
            == whole[3]);
        assert(cut.skip(4)[0] == whole.skip(4)[0] && cut.skip(4)[1] == whole.skip(4)[1]
            && cut.skip(4)[2] == whole.skip(4)[2] && cut.skip(4)[3] == whole.skip(4)[3]);
        assert(spec_u64_from_le(cut) == spec_u64_from_le(whole));
    }
}

/// Calls `String::from_utf8`.
///
/// Trusted: the standard library accepts exactly the well-formed UTF-8 byte
/// strings and returns the characters that they encode.
#[verifier::external_body]
fn string_from_utf8(bytes: Vec<u8>) -> (text: Option<String>)
    ensures
        text is Some <==> valid_utf8(bytes@),
        text matches Some(s) ==> s@ == decode_utf8(bytes@),
{
    match String::from_utf8(bytes) {
        Ok(s) => Some(s),
        Err(_) => None,
    }
}

/// Reads the 32-bit number at `at`, and steps over it. There is none where
/// fewer than four bytes are left.
pub fn read_u32(bytes: &[u8], at: usize) -> (read: Option<(u32, usize)>)
    ensures
        read is Some <==> at + 4 <= bytes@.len(),
        read matches Some((value, next)) ==> {
            &&& value == spec_u32_from_le(bytes@.skip(at as int))
            &&& next == at + 4
        },
{
    if at > bytes.len() || bytes.len() - at < 4 {
        return None;
    }
    let b0: u32 = bytes[at] as u32;
    let b1: u32 = bytes[at + 1] as u32;
    let b2: u32 = bytes[at + 2] as u32;
    let b3: u32 = bytes[at + 3] as u32;
    Some((b0 + b1 * 0x100 + b2 * 0x1_0000 + b3 * 0x100_0000, at + 4))
}

/// Reads the 64-bit number at `at`, and steps over it. There is none where
/// fewer than eight bytes are left.
pub fn read_u64(bytes: &[u8], at: usize) -> (read: Option<(u64, usize)>)
    ensures
        read is Some <==> at + 8 <= bytes@.len(),
        read matches Some((value, next)) ==> {
            &&& value == spec_u64_from_le(bytes@.skip(at as int))
            &&& next == at + 8
        },
{
    if at > bytes.len() || bytes.len() - at < 8 {
        return None;
    }
    let low = match read_u32(bytes, at) {
        Some((value, _)) => value,
        None => return None,
    };
    let high = match read_u32(bytes, at + 4) {
        Some((value, _)) => value,
        None => return None,
    };
    assert(bytes@.skip(at as int).skip(4) =~= bytes@.skip(at + 4));
    let low: u64 = low as u64;
    let high: u64 = high as u64;
    Some((low + high * 0x1_0000_0000, at + 8))
}

/// Reads the string at `at`, and steps over it. There is none where `at` lies
/// beyond the bytes or what stands there does not read as a string.
pub fn read_string(bytes: &[u8], at: usize) -> (read: Option<(String, usize)>)
    ensures
        match read {
            Some((text, next)) => {
                &&& at <= next <= bytes@.len()
                &&& spec_read_string(bytes@.skip(at as int)) == Some(
                    (text@, bytes@.skip(next as int)),
                )
            },
            None => at > bytes@.len() || spec_read_string(bytes@.skip(at as int)) is None,
        },
{
    let (len, start) = match read_u64(bytes, at) {
        Some(read) => read,
        None => return None,
    };
    let available: usize = bytes.len() - start;
    if len > available as u64 {
        return None;
    }
    let end: usize = start + len as usize;
    let body = slice_to_vec(slice_subrange(bytes, start, end));
    proof {
        let tail = bytes@.skip(at as int);
        assert(tail.subrange(8, 8 + len) =~= body@);
        assert(tail.skip(8 + len) =~= bytes@.skip(end as int));
    }
    match string_from_utf8(body) {
        Some(text) => Some((text, end)),
        None => None,
    }
}

/// Appends the four bytes of `value`.
pub fn write_u32(out: &mut Vec<u8>, value: u32)
    ensures
        final(out)@ == old(out)@ + spec_u32_to_le(value),
{
    out.push((value % 0x100) as u8);
    out.push((value / 0x100 % 0x100) as u8);
    out.push((value / 0x1_0000 % 0x100) as u8);
    out.push((value / 0x100_0000 % 0x100) as u8);
    assert(out@ =~= old(out)@ + spec_u32_to_le(value));
}

/// Appends the eight bytes of `value`.
pub fn write_u64(out: &mut Vec<u8>, value: u64)
    ensures
        final(out)@ == old(out)@ + spec_u64_to_le(value),
{
    write_u32(out, (value % 0x1_0000_0000) as u32);
    write_u32(out, (value / 0x1_0000_0000) as u32);
    assert(out@ =~= old(out)@ + spec_u64_to_le(value));
}

/// Appends `text` as a length and its UTF-8 bytes.
pub fn write_string(out: &mut Vec<u8>, text: &str)
    ensures
        final(out)@ == old(out)@ + spec_string_to_bytes(text@),
        encode_utf8(text@).len() <= u64::MAX,
{
    let body = text.as_bytes();
    write_u64(out, body.len() as u64);
    out.extend_from_slice(body);
    assert(out@ =~= old(out)@ + spec_string_to_bytes(text@));
}

} // verus!
