//! Integers in LEB128, floats as their bit patterns, and names.

use crate::decoder::cursor::{
    byte_at, fault, reads, repeat_at, viewed, Decoder, DecoderResult, Parse, UNEXPECTED_END,
};
use vstd::prelude::*;
use vstd::slice::{slice_subrange, slice_to_vec};
use vstd::utf8::{decode_utf8, encode_utf8, valid_utf8};

verus! {

// The messages of the faults in values.
pub const INTEGER_TOO_LONG: &'static str = "Integer representation too long";
pub const INTEGER_TOO_LARGE: &'static str = "Integer too large";
pub const INVALID_UTF8: &'static str = "Invalid utf-8 encoding";

/// The unsigned LEB128 number at `pos`, which has to be below `limit`: seven bits to a
/// byte, the low ones first, each byte but the last with its high bit set. A byte that
/// the limit leaves no room for is a fault at that byte.
pub open spec fn unsigned_leb128_at(bytes: Seq<u8>, pos: int, limit: nat) -> Parse<int>
    decreases limit,
{
    match byte_at(bytes, pos) {
        Err(f) => Err(f),
        Ok((byte, next)) => {
            if byte < 0x80 {
                if byte < limit {
                    Ok((byte as int, next))
                } else {
                    fault(pos, INTEGER_TOO_LARGE)
                }
            } else if limit <= 0x80 {
                fault(pos, INTEGER_TOO_LONG)
            } else {
                match unsigned_leb128_at(bytes, next, limit / 0x80) {
                    Ok((high, end)) => Ok((byte - 0x80 + 0x80 * high, end)),
                    Err(f) => Err(f),
                }
            }
        },
    }
}

/// The signed LEB128 number at `pos`, which has to be in `-limit .. limit`: as the
/// unsigned one, but the last byte holds a seven-bit two's complement number.
pub open spec fn signed_leb128_at(bytes: Seq<u8>, pos: int, limit: nat) -> Parse<int>
    decreases limit,
{
    match byte_at(bytes, pos) {
        Err(f) => Err(f),
        Ok((byte, next)) => {
            if byte < 0x80 {
                let value = if byte < 0x40 {
                    byte as int
                } else {
                    byte - 0x80
                };
                if -limit <= value < limit {
                    Ok((value, next))
                } else {
                    fault(pos, INTEGER_TOO_LARGE)
                }
            } else if limit <= 0x40 {
                fault(pos, INTEGER_TOO_LONG)
            } else {
                match signed_leb128_at(bytes, next, limit / 0x80) {
                    Ok((high, end)) => Ok((byte - 0x80 + 0x80 * high, end)),
                    Err(f) => Err(f),
                }
            }
        },
    }
}

/// The `u32` at `pos`.
pub open spec fn u32_at(bytes: Seq<u8>, pos: int) -> Parse<u32> {
    match unsigned_leb128_at(bytes, pos, 0x1_0000_0000) {
        Ok((value, next)) => Ok((value as u32, next)),
        Err(f) => Err(f),
    }
}

/// The `i32` at `pos`.
pub open spec fn i32_at(bytes: Seq<u8>, pos: int) -> Parse<i32> {
    match signed_leb128_at(bytes, pos, 0x8000_0000) {
        Ok((value, next)) => Ok((value as i32, next)),
        Err(f) => Err(f),
    }
}

/// The `i64` at `pos`.
pub open spec fn i64_at(bytes: Seq<u8>, pos: int) -> Parse<i64> {
    match signed_leb128_at(bytes, pos, 0x8000_0000_0000_0000) {
        Ok((value, next)) => Ok((value as i64, next)),
        Err(f) => Err(f),
    }
}

/// The number that the `count` bytes at `pos` spell, the least significant byte first.
pub open spec fn little_endian_at(bytes: Seq<u8>, pos: int, count: nat) -> Parse<int>
    decreases count,
{
    if count == 0 {
        Ok((0, pos))
    } else {
        match byte_at(bytes, pos) {
            Err(f) => Err(f),
            Ok((byte, next)) => match little_endian_at(bytes, next, (count - 1) as nat) {
                Ok((high, end)) => Ok((byte + 0x100 * high, end)),
                Err(f) => Err(f),
            },
        }
    }
}

/// The bit pattern of the 32-bit float at `pos`.
pub open spec fn f32_at(bytes: Seq<u8>, pos: int) -> Parse<u32> {
    match little_endian_at(bytes, pos, 4) {
        Ok((value, next)) => Ok((value as u32, next)),
        Err(f) => Err(f),
    }
}

/// The bit pattern of the 64-bit float at `pos`.
pub open spec fn f64_at(bytes: Seq<u8>, pos: int) -> Parse<u64> {
    match little_endian_at(bytes, pos, 8) {
        Ok((value, next)) => Ok((value as u64, next)),
        Err(f) => Err(f),
    }
}

/// The name at `pos`: a `u32` length, then that many bytes, which have to be UTF-8.
pub open spec fn name_at(bytes: Seq<u8>, pos: int) -> Parse<Seq<char>> {
    match u32_at(bytes, pos) {
        Err(f) => Err(f),
        Ok((size, start)) => {
            if start + size > bytes.len() {
                fault(bytes.len() as int, UNEXPECTED_END)
            } else if !valid_utf8(bytes.subrange(start, start + size)) {
                fault(start + size, INVALID_UTF8)
            } else {
                Ok((decode_utf8(bytes.subrange(start, start + size)), start + size))
            }
        },
    }
}

/// The vector at `pos`: a `u32` count, then that many items, each found by `item`.
pub open spec fn vector_at<T>(
    bytes: Seq<u8>,
    pos: int,
    item: spec_fn(Seq<u8>, int) -> Parse<T>,
) -> Parse<Seq<T>> {
    match u32_at(bytes, pos) {
        Err(f) => Err(f),
        Ok((count, next)) => repeat_at(bytes, next, count as nat, item),
    }
}

/// The result of a reader of integers, each value taken as a mathematical integer.
pub open spec fn widened(got: DecoderResult<u64>) -> DecoderResult<int> {
    match got {
        Ok(value) => Ok(value as int),
        Err(error) => Err(error),
    }
}

/// As [`widened`], for signed integers.
pub open spec fn widened_signed(got: DecoderResult<i64>) -> DecoderResult<int> {
    match got {
        Ok(value) => Ok(value as int),
        Err(error) => Err(error),
    }
}

/// An unsigned LEB128 number is below its limit.
pub proof fn lemma_unsigned_leb128_bound(bytes: Seq<u8>, pos: int, limit: nat)
    ensures
        unsigned_leb128_at(bytes, pos, limit) matches Ok((value, next)) ==> 0 <= value < limit
            && pos < next <= bytes.len(),
    decreases limit,
{
    if let Ok((byte, next)) = byte_at(bytes, pos) {
        if byte >= 0x80 && limit > 0x80 {
            lemma_unsigned_leb128_bound(bytes, next, limit / 0x80);
        }
    }
}

/// A signed LEB128 number is within its limit.
pub proof fn lemma_signed_leb128_bound(bytes: Seq<u8>, pos: int, limit: nat)
    ensures
        signed_leb128_at(bytes, pos, limit) matches Ok((value, next)) ==> -limit <= value < limit
            && pos < next <= bytes.len(),
    decreases limit,
{
    if let Ok((byte, next)) = byte_at(bytes, pos) {
        if byte >= 0x80 && limit > 0x40 {
            lemma_signed_leb128_bound(bytes, next, limit / 0x80);
        }
    }
}

/// Reads an unsigned LEB128 number below `limit`.
pub fn decode_unsigned_leb_128(decoder: &mut Decoder, limit: u128) -> (r: DecoderResult<u64>)
    requires
        limit <= 0x1_0000_0000_0000_0000,
    ensures
        reads(
            *old(decoder),
            *final(decoder),
            widened(r),
            unsigned_leb128_at(old(decoder).bytes@, old(decoder).offset as int, limit as nat),
        ),
    decreases limit,
{
    let ghost bytes = decoder.bytes@;
    let ghost pos = decoder.offset as int;
    match decoder.pick_byte() {
        None => Err(decoder.produce_error(UNEXPECTED_END)),
        Some(byte) => {
            if byte < 0x80 {
                if (byte as u128) < limit {
                    decoder.step();
                    Ok(byte as u64)
                } else {
                    Err(decoder.produce_error(INTEGER_TOO_LARGE))
                }
            } else if limit <= 0x80 {
                Err(decoder.produce_error(INTEGER_TOO_LONG))
            } else {
                decoder.step();
                let high = decode_unsigned_leb_128(decoder, limit / 0x80)?;
                proof {
                    lemma_unsigned_leb128_bound(bytes, pos + 1, (limit / 0x80) as nat);
                }
                Ok((byte - 0x80) as u64 + 0x80 * high)
            }
        },
    }
}

/// Reads a signed LEB128 number in `-limit .. limit`.
pub fn decode_signed_leb_128(decoder: &mut Decoder, limit: u64) -> (r: DecoderResult<i64>)
    requires
        limit <= 0x8000_0000_0000_0000,
    ensures
        reads(
            *old(decoder),
            *final(decoder),
            widened_signed(r),
            signed_leb128_at(old(decoder).bytes@, old(decoder).offset as int, limit as nat),
        ),
    decreases limit,
{
    let ghost bytes = decoder.bytes@;
    let ghost pos = decoder.offset as int;
    match decoder.pick_byte() {
        None => Err(decoder.produce_error(UNEXPECTED_END)),
        Some(byte) => {
            if byte < 0x80 {
                let value: i64 = if byte < 0x40 {
                    byte as i64
                } else {
                    byte as i64 - 0x80
                };
                if limit >= 0x40 || (-(limit as i64) <= value && value < limit as i64) {
                    decoder.step();
                    Ok(value)
                } else {
                    Err(decoder.produce_error(INTEGER_TOO_LARGE))
                }
            } else if limit <= 0x40 {
                Err(decoder.produce_error(INTEGER_TOO_LONG))
            } else {
                decoder.step();
                let high = decode_signed_leb_128(decoder, limit / 0x80)?;
                proof {
                    lemma_signed_leb128_bound(bytes, pos + 1, (limit / 0x80) as nat);
                }
                Ok((byte - 0x80) as i64 + 0x80 * high)
            }
        },
    }
}

/// Reads a `u32`.
pub fn decode_u32(decoder: &mut Decoder) -> (r: DecoderResult<u32>)
    ensures
        reads(
            *old(decoder),
            *final(decoder),
            r,
            u32_at(old(decoder).bytes@, old(decoder).offset as int),
        ),
{
    proof {
        lemma_unsigned_leb128_bound(decoder.bytes@, decoder.offset as int, 0x1_0000_0000);
    }
    match decode_unsigned_leb_128(decoder, 0x1_0000_0000) {
        Ok(value) => Ok(value as u32),
        Err(error) => Err(error),
    }
}

/// Reads an `i32`.
pub fn decode_i32(decoder: &mut Decoder) -> (r: DecoderResult<i32>)
    ensures
        reads(
            *old(decoder),
            *final(decoder),
            r,
            i32_at(old(decoder).bytes@, old(decoder).offset as int),
        ),
{
    proof {
        lemma_signed_leb128_bound(decoder.bytes@, decoder.offset as int, 0x8000_0000);
    }
    match decode_signed_leb_128(decoder, 0x8000_0000) {
        Ok(value) => Ok(value as i32),
        Err(error) => Err(error),
    }
}

/// Reads an `i64`.
pub fn decode_i64(decoder: &mut Decoder) -> (r: DecoderResult<i64>)
    ensures
        reads(
            *old(decoder),
            *final(decoder),
            r,
            i64_at(old(decoder).bytes@, old(decoder).offset as int),
        ),
{
    decode_signed_leb_128(decoder, 0x8000_0000_0000_0000)
}

/// Reads the bit pattern of a 32-bit float: four bytes, the least significant first.
pub fn decode_f32(decoder: &mut Decoder) -> (r: DecoderResult<u32>)
    ensures
        reads(
            *old(decoder),
            *final(decoder),
            r,
            f32_at(old(decoder).bytes@, old(decoder).offset as int),
        ),
{
    proof {
        reveal_with_fuel(little_endian_at, 5);
    }
    let b0 = decoder.eat_byte()?;
    let b1 = decoder.eat_byte()?;
    let b2 = decoder.eat_byte()?;
    let b3 = decoder.eat_byte()?;
    Ok(b0 as u32 + 0x100 * (b1 as u32) + 0x1_0000 * (b2 as u32) + 0x100_0000 * (b3 as u32))
}

/// Reads the bit pattern of a 64-bit float: eight bytes, the least significant first.
pub fn decode_f64(decoder: &mut Decoder) -> (r: DecoderResult<u64>)
    ensures
        reads(
            *old(decoder),
            *final(decoder),
            r,
            f64_at(old(decoder).bytes@, old(decoder).offset as int),
        ),
{
    proof {
        reveal_with_fuel(little_endian_at, 9);
    }
    let b0 = decoder.eat_byte()?;
    let b1 = decoder.eat_byte()?;
    let b2 = decoder.eat_byte()?;
    let b3 = decoder.eat_byte()?;
    let b4 = decoder.eat_byte()?;
    let b5 = decoder.eat_byte()?;
    let b6 = decoder.eat_byte()?;
    let b7 = decoder.eat_byte()?;
    let low: u64 = b0 as u64 + 0x100 * (b1 as u64) + 0x1_0000 * (b2 as u64) + 0x100_0000 * (
    b3 as u64);
    let high: u64 = b4 as u64 + 0x100 * (b5 as u64) + 0x1_0000 * (b6 as u64) + 0x100_0000 * (
    b7 as u64);
    Ok(low + 0x1_0000_0000 * high)
}

/// The error of `String::from_utf8` of std. Nothing is known of what it holds.
#[verifier::external_type_specification]
#[verifier::external_body]
pub struct ExFromUtf8Error(std::string::FromUtf8Error);

/// `String::from_utf8` of std succeeds exactly on valid UTF-8, and the string it gives
/// then has the bytes of the vector as its encoding. This is taken from the documentation
/// of std, not proved.
pub assume_specification[ String::from_utf8 ](vec: Vec<u8>) -> (r: Result<
    String,
    std::string::FromUtf8Error,
>)
    ensures
        r is Ok <==> valid_utf8(vec@),
        r matches Ok(s) ==> encode_utf8(s@) == vec@,
;

/// Reads a name.
pub fn decode_name(decoder: &mut Decoder) -> (r: DecoderResult<String>)
    ensures
        reads(
            *old(decoder),
            *final(decoder),
            viewed(r),
            name_at(old(decoder).bytes@, old(decoder).offset as int),
        ),
{
    proof {
        lemma_unsigned_leb128_bound(decoder.bytes@, decoder.offset as int, 0x1_0000_0000);
    }
    let size = decode_u32(decoder)? as usize;
    let len = decoder.bytes.len();
    if size > len - decoder.offset {
        decoder.offset = len;
        return Err(decoder.produce_error(UNEXPECTED_END));
    }
    let end = decoder.offset + size;
    let payload = slice_to_vec(slice_subrange(decoder.bytes, decoder.offset, end));
    decoder.offset = end;
    match String::from_utf8(payload) {
        Ok(name) => {
            proof {
                vstd::utf8::encode_utf8_decode_utf8(name@);
            }
            Ok(name)
        },
        Err(_) => Err(decoder.produce_error(INVALID_UTF8)),
    }
}

} // verus!
