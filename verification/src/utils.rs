//! Primitive little-endian readers over a byte buffer.
//!
//! Every multi-byte value on the wire is little-endian. Each reader consumes
//! exactly its width in bytes, advancing a caller-held cursor, or reports
//! `TruncatedInput` and leaves the cursor where it was.

use vstd::prelude::*;
use crate::DecodeError;

verus! {

/// The unsigned value of the two little-endian bytes of `b` starting at `off`.
pub open spec fn le_u16_at(b: Seq<u8>, off: int) -> u16 {
    (b[off] + b[off + 1] * 0x100) as u16
}

/// The unsigned value of the four little-endian bytes of `b` starting at `off`.
pub open spec fn le_u32_at(b: Seq<u8>, off: int) -> u32 {
    (b[off] + b[off + 1] * 0x100 + b[off + 2] * 0x10000 + b[off + 3] * 0x1000000) as u32
}

/// The two's-complement reading of a 32-bit pattern.
pub open spec fn i32_from_bits(u: u32) -> i32 {
    if u < 0x8000_0000 {
        u as i32
    } else {
        (u - 0x1_0000_0000) as i32
    }
}

/// The two's-complement reading of an 8-bit pattern.
pub open spec fn i8_from_bits(u: u8) -> i8 {
    if u < 0x80 {
        u as i8
    } else {
        (u - 0x100) as i8
    }
}

/// The signed value of the four little-endian bytes of `b` starting at `off`.
pub open spec fn le_i32_at(b: Seq<u8>, off: int) -> i32 {
    i32_from_bits(le_u32_at(b, off))
}

/// The signed value of the byte of `b` at `off`.
pub open spec fn i8_at(b: Seq<u8>, off: int) -> i8 {
    i8_from_bits(b[off])
}

/// Consumes one byte as an unsigned integer.
pub fn parse_u8(buf: &[u8], pos: &mut usize) -> (r: Result<u8, DecodeError>)
    ensures
        *old(pos) + 1 <= buf@.len() ==> r == Ok::<u8, DecodeError>(buf@[*old(pos) as int])
            && *final(pos) == *old(pos) + 1,
        *old(pos) + 1 > buf@.len() ==> r == Err::<u8, DecodeError>(DecodeError::TruncatedInput)
            && *final(pos) == *old(pos),
{
    if buf.len() >= 1 && *pos <= buf.len() - 1 {
        let b = buf[*pos];
        *pos = *pos + 1;
        Ok(b)
    } else {
        Err(DecodeError::TruncatedInput)
    }
}

/// Consumes one byte as a signed integer.
pub fn parse_i8(buf: &[u8], pos: &mut usize) -> (r: Result<i8, DecodeError>)
    ensures
        *old(pos) + 1 <= buf@.len() ==> r == Ok::<i8, DecodeError>(i8_at(buf@, *old(pos) as int))
            && *final(pos) == *old(pos) + 1,
        *old(pos) + 1 > buf@.len() ==> r == Err::<i8, DecodeError>(DecodeError::TruncatedInput)
            && *final(pos) == *old(pos),
{
    if buf.len() >= 1 && *pos <= buf.len() - 1 {
        let b = buf[*pos];
        *pos = *pos + 1;
        if b < 0x80 {
            Ok(b as i8)
        } else {
            Ok(((b as i16) - 0x100) as i8)
        }
    } else {
        Err(DecodeError::TruncatedInput)
    }
}

/// Consumes two little-endian bytes as an unsigned integer.
pub fn parse_u16(buf: &[u8], pos: &mut usize) -> (r: Result<u16, DecodeError>)
    ensures
        *old(pos) + 2 <= buf@.len() ==> r == Ok::<u16, DecodeError>(le_u16_at(buf@, *old(pos) as int))
            && *final(pos) == *old(pos) + 2,
        *old(pos) + 2 > buf@.len() ==> r == Err::<u16, DecodeError>(DecodeError::TruncatedInput)
            && *final(pos) == *old(pos),
{
    if buf.len() >= 2 && *pos <= buf.len() - 2 {
        let b0 = buf[*pos] as u16;
        let b1 = buf[*pos + 1] as u16;
        *pos = *pos + 2;
        Ok(b0 + b1 * 0x100)
    } else {
        Err(DecodeError::TruncatedInput)
    }
}

/// Consumes four little-endian bytes as an unsigned integer.
pub fn parse_u32(buf: &[u8], pos: &mut usize) -> (r: Result<u32, DecodeError>)
    ensures
        *old(pos) + 4 <= buf@.len() ==> r == Ok::<u32, DecodeError>(le_u32_at(buf@, *old(pos) as int))
            && *final(pos) == *old(pos) + 4,
        *old(pos) + 4 > buf@.len() ==> r == Err::<u32, DecodeError>(DecodeError::TruncatedInput)
            && *final(pos) == *old(pos),
{
    if buf.len() >= 4 && *pos <= buf.len() - 4 {
        let b0 = buf[*pos] as u32;
        let b1 = buf[*pos + 1] as u32;
        let b2 = buf[*pos + 2] as u32;
        let b3 = buf[*pos + 3] as u32;
        *pos = *pos + 4;
        Ok(b0 + b1 * 0x100 + b2 * 0x10000 + b3 * 0x1000000)
    } else {
        Err(DecodeError::TruncatedInput)
    }
}

/// Consumes four little-endian bytes as a signed integer.
pub fn parse_i32(buf: &[u8], pos: &mut usize) -> (r: Result<i32, DecodeError>)
    ensures
        *old(pos) + 4 <= buf@.len() ==> r == Ok::<i32, DecodeError>(le_i32_at(buf@, *old(pos) as int))
            && *final(pos) == *old(pos) + 4,
        *old(pos) + 4 > buf@.len() ==> r == Err::<i32, DecodeError>(DecodeError::TruncatedInput)
            && *final(pos) == *old(pos),
{
    let bits = parse_u32(buf, pos)?;
    if bits < 0x8000_0000 {
        Ok(bits as i32)
    } else {
        Ok(((bits as i64) - 0x1_0000_0000i64) as i32)
    }
}

/// Consumes four little-endian bytes as the raw bit pattern of a 32-bit
/// floating-point wire field. The bits are handed on untouched; turning them
/// into a floating-point value is the caller's business.
pub fn parse_f32_bits(buf: &[u8], pos: &mut usize) -> (r: Result<u32, DecodeError>)
    ensures
        *old(pos) + 4 <= buf@.len() ==> r == Ok::<u32, DecodeError>(le_u32_at(buf@, *old(pos) as int))
            && *final(pos) == *old(pos) + 4,
        *old(pos) + 4 > buf@.len() ==> r == Err::<u32, DecodeError>(DecodeError::TruncatedInput)
            && *final(pos) == *old(pos),
{
    parse_u32(buf, pos)
}

} // verus!
