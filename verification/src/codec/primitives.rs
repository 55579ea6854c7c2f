//! Integers, flags, byte strings and text.

use vstd::prelude::*;
use vstd::utf8::{decode_utf8, encode_utf8, valid_utf8};
use crate::endian::{
    get_le, le_bytes, le_value, lemma_le_bytes_len, lemma_le_value_bound,
    lemma_le_value_of_bytes, lemma_radix_pow_values, put_le, radix_pow,
};

verus! {

/// The outcome of a `read_..` function, by views: the value and the position
/// behind it.
pub open spec fn got<T: View>(r: Option<(T, usize)>) -> Option<(T::V, int)> {
    match r {
        Some((value, end)) => Some((value@, end as int)),
        None => None,
    }
}

/// A read at `pos` of `bytes` agrees with what the format says of the bytes
/// from `pos` on: the same value, and an end position that leaves the same
/// remainder; or nothing on either side. Behind the end of `bytes` there is
/// nothing to read.
pub open spec fn reads<V>(
    bytes: Seq<u8>,
    pos: int,
    parsed: Option<(V, Seq<u8>)>,
    outcome: Option<(V, int)>,
) -> bool {
    if pos > bytes.len() {
        outcome is None
    } else {
        match parsed {
            Some((value, rest)) => outcome matches Some((v, end)) && v == value && pos <= end
                <= bytes.len() && bytes.skip(end) == rest,
            None => outcome is None,
        }
    }
}

/// Concatenation does not care how it is bracketed.
pub proof fn lemma_concat_assoc(a: Seq<u8>, b: Seq<u8>, c: Seq<u8>)
    ensures
        (a + b) + c == a + (b + c),
{
    assert((a + b) + c =~= a + (b + c));
}

/// An unsigned integer of `width` bytes at the front of `bytes`.
pub open spec fn parse_uint(bytes: Seq<u8>, width: nat) -> Option<(nat, Seq<u8>)> {
    if bytes.len() < width {
        None
    } else {
        Some((le_value(bytes.take(width as int)), bytes.skip(width as int)))
    }
}

/// Parsing undoes serializing, whatever follows.
pub proof fn lemma_parse_uint(value: nat, width: nat, rest: Seq<u8>)
    requires
        value < radix_pow(width),
    ensures
        parse_uint(le_bytes(value, width) + rest, width) == Some((value, rest)),
{
    let bytes = le_bytes(value, width) + rest;
    lemma_le_bytes_len(value, width);
    lemma_le_value_of_bytes(value, width);
    assert(bytes.take(width as int) =~= le_bytes(value, width));
    assert(bytes.skip(width as int) =~= rest);
}

/// Reads an unsigned integer of `width` bytes at `pos`. There is none behind
/// the end of `bytes`, nor of a width over 16.
pub fn read_uint(bytes: &[u8], pos: usize, width: usize) -> (r: Option<(u128, usize)>)
    ensures
        pos > bytes@.len() || width > 16 ==> r is None,
        pos <= bytes@.len() && width <= 16 ==> match parse_uint(
            bytes@.skip(pos as int),
            width as nat,
        ) {
            Some((value, rest)) => r matches Some((v, end)) && v == value && end == pos + width
                && end <= bytes@.len() && bytes@.skip(end as int) == rest && value < radix_pow(
                width as nat,
            ),
            None => r is None,
        },
{
    if pos > bytes.len() || bytes.len() - pos < width {
        return None;
    }
    let value: u128 = get_le(bytes, pos, width)?;
    proof {
        let tail = bytes@.skip(pos as int);
        assert(tail.take(width as int) =~= bytes@.subrange(pos as int, pos + width));
        assert(tail.skip(width as int) =~= bytes@.skip(pos + width));
        lemma_le_value_bound(tail.take(width as int));
        lemma_radix_pow_values();
        crate::endian::lemma_radix_pow_monotonic(width as nat, 16);
    }
    Some((value, pos + width))
}

/// The binary form of a `u8`: its bytes, least significant first.
pub open spec fn ser_u8(value: u8) -> Seq<u8> {
    le_bytes(value as nat, 1)
}

/// What `bytes` starts with, read as a `u8`, and what follows it.
pub open spec fn parse_u8(bytes: Seq<u8>) -> Option<(u8, Seq<u8>)> {
    match parse_uint(bytes, 1) {
        Some((value, rest)) => Some((value as u8, rest)),
        None => None,
    }
}

/// Parsing undoes serializing, whatever follows.
pub proof fn lemma_parse_u8(value: u8, rest: Seq<u8>)
    ensures
        parse_u8(ser_u8(value) + rest) == Some((value, rest)),
{
    lemma_radix_pow_values();
    lemma_parse_uint(value as nat, 1, rest);
}

/// Appends the binary form of `value` to `out`.
pub fn write_u8(out: &mut Vec<u8>, value: u8)
    ensures
        final(out)@ == old(out)@ + ser_u8(value),
{
    put_le(out, value as u128, 1);
}

/// Reads a `u8` at `pos`. Returns it with the position behind it.
pub fn read_u8(bytes: &[u8], pos: usize) -> (r: Option<(u8, usize)>)
    ensures
        reads(bytes@, pos as int, parse_u8(bytes@.skip(pos as int)), got(r)),
{
    proof {
        lemma_radix_pow_values();
    }
    let (value, end) = read_uint(bytes, pos, 1)?;
    Some((value as u8, end))
}

/// The binary form of a `u16`: its bytes, least significant first.
pub open spec fn ser_u16(value: u16) -> Seq<u8> {
    le_bytes(value as nat, 2)
}

/// What `bytes` starts with, read as a `u16`, and what follows it.
pub open spec fn parse_u16(bytes: Seq<u8>) -> Option<(u16, Seq<u8>)> {
    match parse_uint(bytes, 2) {
        Some((value, rest)) => Some((value as u16, rest)),
        None => None,
    }
}

/// Parsing undoes serializing, whatever follows.
pub proof fn lemma_parse_u16(value: u16, rest: Seq<u8>)
    ensures
        parse_u16(ser_u16(value) + rest) == Some((value, rest)),
{
    lemma_radix_pow_values();
    lemma_parse_uint(value as nat, 2, rest);
}

/// Appends the binary form of `value` to `out`.
pub fn write_u16(out: &mut Vec<u8>, value: u16)
    ensures
        final(out)@ == old(out)@ + ser_u16(value),
{
    put_le(out, value as u128, 2);
}

/// Reads a `u16` at `pos`. Returns it with the position behind it.
pub fn read_u16(bytes: &[u8], pos: usize) -> (r: Option<(u16, usize)>)
    ensures
        reads(bytes@, pos as int, parse_u16(bytes@.skip(pos as int)), got(r)),
{
    proof {
        lemma_radix_pow_values();
    }
    let (value, end) = read_uint(bytes, pos, 2)?;
    Some((value as u16, end))
}

/// The binary form of a `u32`: its bytes, least significant first.
pub open spec fn ser_u32(value: u32) -> Seq<u8> {
    le_bytes(value as nat, 4)
}

/// What `bytes` starts with, read as a `u32`, and what follows it.
pub open spec fn parse_u32(bytes: Seq<u8>) -> Option<(u32, Seq<u8>)> {
    match parse_uint(bytes, 4) {
        Some((value, rest)) => Some((value as u32, rest)),
        None => None,
    }
}

/// Parsing undoes serializing, whatever follows.
pub proof fn lemma_parse_u32(value: u32, rest: Seq<u8>)
    ensures
        parse_u32(ser_u32(value) + rest) == Some((value, rest)),
{
    lemma_radix_pow_values();
    lemma_parse_uint(value as nat, 4, rest);
}

/// Appends the binary form of `value` to `out`.
pub fn write_u32(out: &mut Vec<u8>, value: u32)
    ensures
        final(out)@ == old(out)@ + ser_u32(value),
{
    put_le(out, value as u128, 4);
}

/// Reads a `u32` at `pos`. Returns it with the position behind it.
pub fn read_u32(bytes: &[u8], pos: usize) -> (r: Option<(u32, usize)>)
    ensures
        reads(bytes@, pos as int, parse_u32(bytes@.skip(pos as int)), got(r)),
{
    proof {
        lemma_radix_pow_values();
    }
    let (value, end) = read_uint(bytes, pos, 4)?;
    Some((value as u32, end))
}

/// The binary form of a `u64`: its bytes, least significant first.
pub open spec fn ser_u64(value: u64) -> Seq<u8> {
    le_bytes(value as nat, 8)
}

/// What `bytes` starts with, read as a `u64`, and what follows it.
pub open spec fn parse_u64(bytes: Seq<u8>) -> Option<(u64, Seq<u8>)> {
    match parse_uint(bytes, 8) {
        Some((value, rest)) => Some((value as u64, rest)),
        None => None,
    }
}

/// Parsing undoes serializing, whatever follows.
pub proof fn lemma_parse_u64(value: u64, rest: Seq<u8>)
    ensures
        parse_u64(ser_u64(value) + rest) == Some((value, rest)),
{
    lemma_radix_pow_values();
    lemma_parse_uint(value as nat, 8, rest);
}

/// Appends the binary form of `value` to `out`.
pub fn write_u64(out: &mut Vec<u8>, value: u64)
    ensures
        final(out)@ == old(out)@ + ser_u64(value),
{
    put_le(out, value as u128, 8);
}

/// Reads a `u64` at `pos`. Returns it with the position behind it.
pub fn read_u64(bytes: &[u8], pos: usize) -> (r: Option<(u64, usize)>)
    ensures
        reads(bytes@, pos as int, parse_u64(bytes@.skip(pos as int)), got(r)),
{
    proof {
        lemma_radix_pow_values();
    }
    let (value, end) = read_uint(bytes, pos, 8)?;
    Some((value as u64, end))
}

/// The binary form of a `u128`: its bytes, least significant first.
pub open spec fn ser_u128(value: u128) -> Seq<u8> {
    le_bytes(value as nat, 16)
}

/// What `bytes` starts with, read as a `u128`, and what follows it.
pub open spec fn parse_u128(bytes: Seq<u8>) -> Option<(u128, Seq<u8>)> {
    match parse_uint(bytes, 16) {
        Some((value, rest)) => Some((value as u128, rest)),
        None => None,
    }
}

/// Parsing undoes serializing, whatever follows.
pub proof fn lemma_parse_u128(value: u128, rest: Seq<u8>)
    ensures
        parse_u128(ser_u128(value) + rest) == Some((value, rest)),
{
    lemma_radix_pow_values();
    lemma_parse_uint(value as nat, 16, rest);
}

/// Appends the binary form of `value` to `out`.
pub fn write_u128(out: &mut Vec<u8>, value: u128)
    ensures
        final(out)@ == old(out)@ + ser_u128(value),
{
    put_le(out, value, 16);
}

/// Reads a `u128` at `pos`. Returns it with the position behind it.
pub fn read_u128(bytes: &[u8], pos: usize) -> (r: Option<(u128, usize)>)
    ensures
        reads(bytes@, pos as int, parse_u128(bytes@.skip(pos as int)), got(r)),
{
    proof {
        lemma_radix_pow_values();
    }
    read_uint(bytes, pos, 16)
}

/// The unsigned number with the same 64 bits as `value` in two's complement.
pub open spec fn i64_bits(value: i64) -> u64 {
    if value >= 0 {
        value as u64
    } else {
        (value + 0x1_0000_0000_0000_0000) as u64
    }
}

/// The signed number with the same 64 bits as `bits` in two's complement.
pub open spec fn i64_of_bits(bits: u64) -> i64 {
    if bits < 0x8000_0000_0000_0000 {
        bits as i64
    } else {
        (bits - 0x1_0000_0000_0000_0000) as i64
    }
}

/// The binary form of an `i64`: its eight bytes in two's complement, least significant first.
pub open spec fn ser_i64(value: i64) -> Seq<u8> {
    ser_u64(i64_bits(value))
}

/// What `bytes` starts with, read as an `i64`, and what follows it.
pub open spec fn parse_i64(bytes: Seq<u8>) -> Option<(i64, Seq<u8>)> {
    match parse_u64(bytes) {
        Some((bits, rest)) => Some((i64_of_bits(bits), rest)),
        None => None,
    }
}

/// Parsing undoes serializing, whatever follows.
pub proof fn lemma_parse_i64(value: i64, rest: Seq<u8>)
    ensures
        parse_i64(ser_i64(value) + rest) == Some((value, rest)),
{
    lemma_parse_u64(i64_bits(value), rest);
}

/// Appends the binary form of `value` to `out`.
pub fn write_i64(out: &mut Vec<u8>, value: i64)
    ensures
        final(out)@ == old(out)@ + ser_i64(value),
{
    let bits: u64 = if value >= 0 {
        value as u64
    } else {
        u64::MAX - ((-(value + 1)) as u64)
    };
    write_u64(out, bits);
}

/// Reads an `i64` at `pos`. Returns it with the position behind it.
pub fn read_i64(bytes: &[u8], pos: usize) -> (r: Option<(i64, usize)>)
    ensures
        reads(bytes@, pos as int, parse_i64(bytes@.skip(pos as int)), got(r)),
{
    let (bits, end) = read_u64(bytes, pos)?;
    let value: i64 = if bits < 0x8000_0000_0000_0000 {
        bits as i64
    } else {
        -((u64::MAX - bits) as i64) - 1
    };
    Some((value, end))
}

/// The binary form of a flag.
pub open spec fn ser_bool(value: bool) -> Seq<u8> {
    ser_u8(if value { 1u8 } else { 0u8 })
}

/// A flag is the byte 0 or the byte 1; every other byte is refused.
pub open spec fn parse_bool(bytes: Seq<u8>) -> Option<(bool, Seq<u8>)> {
    match parse_u8(bytes) {
        Some((byte, rest)) => if byte == 0 {
            Some((false, rest))
        } else if byte == 1 {
            Some((true, rest))
        } else {
            None
        },
        None => None,
    }
}

/// Parsing undoes serializing, whatever follows.
pub proof fn lemma_parse_bool(value: bool, rest: Seq<u8>)
    ensures
        parse_bool(ser_bool(value) + rest) == Some((value, rest)),
{
    lemma_parse_u8(if value { 1u8 } else { 0u8 }, rest);
}

/// Appends the binary form of `value` to `out`.
pub fn write_bool(out: &mut Vec<u8>, value: bool)
    ensures
        final(out)@ == old(out)@ + ser_bool(value),
{
    write_u8(out, if value { 1 } else { 0 });
}

/// Reads a flag at `pos`. Returns it with the position behind it.
pub fn read_bool(bytes: &[u8], pos: usize) -> (r: Option<(bool, usize)>)
    ensures
        reads(bytes@, pos as int, parse_bool(bytes@.skip(pos as int)), got(r)),
{
    let (byte, end) = read_u8(bytes, pos)?;
    if byte == 0 {
        Some((false, end))
    } else if byte == 1 {
        Some((true, end))
    } else {
        None
    }
}

/// A byte string: its length as a `u64`, then the bytes.
pub open spec fn ser_bytes(value: Seq<u8>) -> Seq<u8> {
    le_bytes(value.len(), 8) + value
}

/// What `bytes` starts with, read as a byte string, and what follows it.
pub open spec fn parse_bytes(bytes: Seq<u8>) -> Option<(Seq<u8>, Seq<u8>)> {
    match parse_uint(bytes, 8) {
        Some((len, rest)) => if len <= rest.len() {
            Some((rest.take(len as int), rest.skip(len as int)))
        } else {
            None
        },
        None => None,
    }
}

/// Parsing undoes serializing, whatever follows.
pub proof fn lemma_parse_bytes(value: Seq<u8>, rest: Seq<u8>)
    requires
        value.len() <= u64::MAX,
    ensures
        parse_bytes(ser_bytes(value) + rest) == Some((value, rest)),
{
    lemma_radix_pow_values();
    lemma_parse_uint(value.len(), 8, value + rest);
    assert(ser_bytes(value) + rest =~= le_bytes(value.len(), 8) + (value + rest));
    assert((value + rest).take(value.len() as int) =~= value);
    assert((value + rest).skip(value.len() as int) =~= rest);
}

/// Appends the binary form of `value` to `out`.
pub fn write_bytes(out: &mut Vec<u8>, value: &[u8])
    ensures
        final(out)@ == old(out)@ + ser_bytes(value@),
        value@.len() <= u64::MAX,
{
    put_le(out, value.len() as u128, 8);
    out.extend_from_slice(value);
    assert(out@ =~= old(out)@ + ser_bytes(value@));
}

/// Reads a byte string at `pos`. Returns it with the position behind it.
pub fn read_bytes(bytes: &[u8], pos: usize) -> (r: Option<(Vec<u8>, usize)>)
    ensures
        reads(bytes@, pos as int, parse_bytes(bytes@.skip(pos as int)), got(r)),
{
    let (len, start) = read_uint(bytes, pos, 8)?;
    if len > (bytes.len() - start) as u128 {
        return None;
    }
    let end: usize = start + len as usize;
    let value: Vec<u8> = vstd::slice::slice_to_vec(vstd::slice::slice_subrange(bytes, start, end));
    proof {
        let rest = bytes@.skip(start as int);
        assert(rest.take(len as int) =~= bytes@.subrange(start as int, end as int));
        assert(rest.skip(len as int) =~= bytes@.skip(end as int));
    }
    Some((value, end))
}

/// An optional byte string: the byte 0 for none, or the byte 1 and the byte string.
pub open spec fn ser_opt_bytes(value: Option<Seq<u8>>) -> Seq<u8> {
    match value {
        Some(b) => ser_u8(1) + ser_bytes(b),
        None => ser_u8(0),
    }
}

/// What `bytes` starts with, read as an optional byte string, and what follows it.
pub open spec fn parse_opt_bytes(bytes: Seq<u8>) -> Option<(Option<Seq<u8>>, Seq<u8>)> {
    match parse_u8(bytes) {
        Some((tag, rest)) => if tag == 0 {
            Some((None, rest))
        } else if tag == 1 {
            match parse_bytes(rest) {
                Some((b, rest2)) => Some((Some(b), rest2)),
                None => None,
            }
        } else {
            None
        },
        None => None,
    }
}

/// Parsing undoes serializing, whatever follows.
pub proof fn lemma_parse_opt_bytes(value: Option<Seq<u8>>, rest: Seq<u8>)
    requires
        value matches Some(b) ==> b.len() <= u64::MAX,
    ensures
        parse_opt_bytes(ser_opt_bytes(value) + rest) == Some((value, rest)),
{
    match value {
        Some(b) => {
            lemma_parse_u8(1, ser_bytes(b) + rest);
            lemma_parse_bytes(b, rest);
            assert(ser_opt_bytes(value) + rest =~= ser_u8(1) + (ser_bytes(b) + rest));
        },
        None => {
            lemma_parse_u8(0, rest);
        },
    }
}

/// The view of an optional byte string.
pub open spec fn opt_bytes_view(value: Option<Vec<u8>>) -> Option<Seq<u8>> {
    match value {
        Some(b) => Some(b@),
        None => None,
    }
}

/// Appends the binary form of `value` to `out`.
pub fn write_opt_bytes(out: &mut Vec<u8>, value: &Option<Vec<u8>>)
    ensures
        final(out)@ == old(out)@ + ser_opt_bytes(opt_bytes_view(*value)),
        opt_bytes_view(*value) matches Some(b) ==> b.len() <= u64::MAX,
{
    match value {
        Some(b) => {
            write_u8(out, 1);
            write_bytes(out, b.as_slice());
            assert(out@ =~= old(out)@ + ser_opt_bytes(opt_bytes_view(*value)));
        },
        None => {
            write_u8(out, 0);
        },
    }
}

/// Reads an optional byte string at `pos`. Returns it with the position behind it.
pub fn read_opt_bytes(bytes: &[u8], pos: usize) -> (r: Option<(Option<Vec<u8>>, usize)>)
    ensures
        reads(
            bytes@,
            pos as int,
            parse_opt_bytes(bytes@.skip(pos as int)),
            match r {
                Some((value, end)) => Some((opt_bytes_view(value), end as int)),
                None => None,
            },
        ),
{
    let (tag, start) = read_u8(bytes, pos)?;
    if tag == 0 {
        Some((None, start))
    } else if tag == 1 {
        let (value, end) = read_bytes(bytes, start)?;
        Some((Some(value), end))
    } else {
        None
    }
}

/// An optional `u16`: the byte 0 for none, or the byte 1 and the number.
pub open spec fn ser_opt_u16(value: Option<u16>) -> Seq<u8> {
    match value {
        Some(n) => ser_u8(1) + ser_u16(n),
        None => ser_u8(0),
    }
}

/// What `bytes` starts with, read as an optional `u16`, and what follows it.
pub open spec fn parse_opt_u16(bytes: Seq<u8>) -> Option<(Option<u16>, Seq<u8>)> {
    match parse_u8(bytes) {
        Some((tag, rest)) => if tag == 0 {
            Some((None, rest))
        } else if tag == 1 {
            match parse_u16(rest) {
                Some((n, rest2)) => Some((Some(n), rest2)),
                None => None,
            }
        } else {
            None
        },
        None => None,
    }
}

/// Parsing undoes serializing, whatever follows.
pub proof fn lemma_parse_opt_u16(value: Option<u16>, rest: Seq<u8>)
    ensures
        parse_opt_u16(ser_opt_u16(value) + rest) == Some((value, rest)),
{
    match value {
        Some(n) => {
            lemma_parse_u8(1, ser_u16(n) + rest);
            lemma_parse_u16(n, rest);
            lemma_concat_assoc(ser_u8(1), ser_u16(n), rest);
        },
        None => {
            lemma_parse_u8(0, rest);
        },
    }
}

/// Appends the binary form of `value` to `out`.
pub fn write_opt_u16(out: &mut Vec<u8>, value: Option<u16>)
    ensures
        final(out)@ == old(out)@ + ser_opt_u16(value),
{
    match value {
        Some(n) => {
            write_u8(out, 1);
            write_u16(out, n);
            assert(out@ =~= old(out)@ + ser_opt_u16(value));
        },
        None => {
            write_u8(out, 0);
        },
    }
}

/// Reads an optional `u16` at `pos`. Returns it with the position behind it.
pub fn read_opt_u16(bytes: &[u8], pos: usize) -> (r: Option<(Option<u16>, usize)>)
    ensures
        reads(bytes@, pos as int, parse_opt_u16(bytes@.skip(pos as int)), got(r)),
{
    let (tag, start) = read_u8(bytes, pos)?;
    if tag == 0 {
        Some((None, start))
    } else if tag == 1 {
        let (n, end) = read_u16(bytes, start)?;
        Some((Some(n), end))
    } else {
        None
    }
}

/// Text: the length of its UTF-8 form as a `u64`, then that form.
pub open spec fn ser_string(value: Seq<char>) -> Seq<u8> {
    ser_bytes(encode_utf8(value))
}

/// Bytes that are not UTF-8 are refused.
pub open spec fn parse_string(bytes: Seq<u8>) -> Option<(Seq<char>, Seq<u8>)> {
    match parse_bytes(bytes) {
        Some((utf8, rest)) => if valid_utf8(utf8) {
            Some((decode_utf8(utf8), rest))
        } else {
            None
        },
        None => None,
    }
}

/// Parsing undoes serializing, whatever follows.
pub proof fn lemma_parse_string(value: Seq<char>, rest: Seq<u8>)
    requires
        encode_utf8(value).len() <= u64::MAX,
    ensures
        parse_string(ser_string(value) + rest) == Some((value, rest)),
{
    lemma_parse_bytes(encode_utf8(value), rest);
    vstd::utf8::encode_utf8_valid_utf8(value);
    vstd::utf8::encode_utf8_decode_utf8(value);
}

/// Appends the binary form of `value` to `out`.
pub fn write_string(out: &mut Vec<u8>, value: &str)
    ensures
        final(out)@ == old(out)@ + ser_string(value@),
        encode_utf8(value@).len() <= u64::MAX,
{
    write_bytes(out, value.as_bytes());
}

/// Calls `String::from_utf8`.
///
/// Assumed, as its documentation says: it succeeds exactly on valid UTF-8,
/// and the text it returns has the given bytes as its UTF-8 form.
#[verifier::external_body]
fn string_from_utf8(bytes: Vec<u8>) -> (r: Option<String>)
    ensures
        r is Some <==> valid_utf8(bytes@),
        r matches Some(text) ==> encode_utf8(text@) == bytes@,
{
    String::from_utf8(bytes).ok()
}

/// Reads a text at `pos`. Returns it with the position behind it.
pub fn read_string(bytes: &[u8], pos: usize) -> (r: Option<(String, usize)>)
    ensures
        reads(bytes@, pos as int, parse_string(bytes@.skip(pos as int)), got(r)),
{
    let (utf8, end) = read_bytes(bytes, pos)?;
    let text: String = string_from_utf8(utf8)?;
    proof {
        vstd::utf8::encode_utf8_decode_utf8(text@);
    }
    Some((text, end))
}

} // verus!
