//! Little-endian primitive reads over the raw file buffer.
//!
//! Every multi-byte field of the format is little-endian. The spec
//! functions give each field's mathematical value; the executable readers
//! are proved to return exactly that value.

use vstd::prelude::*;

verus! {

/// Value of the little-endian 16-bit word at offset `i` of `b`.
pub open spec fn le16(b: Seq<u8>, i: int) -> u16 {
    (b[i] as int + 0x100 * (b[i + 1] as int)) as u16
}

/// Value of the little-endian 32-bit word at offset `i` of `b`.
pub open spec fn le32(b: Seq<u8>, i: int) -> u32 {
    (b[i] as int + 0x100 * (b[i + 1] as int) + 0x1_0000 * (b[i + 2] as int) + 0x100_0000 * (b[i
        + 3] as int)) as u32
}

/// Two's-complement reading of a 16-bit word.
pub open spec fn as_i16(w: u16) -> int {
    if w >= 0x8000 {
        w - 0x1_0000
    } else {
        w as int
    }
}

/// Two's-complement reading of a 32-bit word.
pub open spec fn as_i32(w: u32) -> int {
    if w >= 0x8000_0000 {
        w - 0x1_0000_0000
    } else {
        w as int
    }
}

/// Signed value of the little-endian 16-bit field at offset `i`.
pub open spec fn le_i16(b: Seq<u8>, i: int) -> int {
    as_i16(le16(b, i))
}

/// Signed value of the little-endian 32-bit field at offset `i`.
pub open spec fn le_i32(b: Seq<u8>, i: int) -> int {
    as_i32(le32(b, i))
}

/// Read the unsigned little-endian 16-bit field at offset `i`.
pub fn read_u16_at(b: &Vec<u8>, i: usize) -> (r: u16)
    requires
        i + 2 <= b@.len(),
    ensures
        r == le16(b@, i as int),
{
    let _n: usize = b.len();
    let lo: u16 = b[i] as u16;
    let hi: u16 = b[i + 1] as u16;
    lo + 0x100 * hi
}

/// Read the unsigned little-endian 32-bit field at offset `i`.
pub fn read_u32_at(b: &Vec<u8>, i: usize) -> (r: u32)
    requires
        i + 4 <= b@.len(),
    ensures
        r == le32(b@, i as int),
{
    let _n: usize = b.len();
    let b0: u32 = b[i] as u32;
    let b1: u32 = b[i + 1] as u32;
    let b2: u32 = b[i + 2] as u32;
    let b3: u32 = b[i + 3] as u32;
    b0 + 0x100 * b1 + 0x1_0000 * b2 + 0x100_0000 * b3
}

/// Read the signed little-endian 16-bit field at offset `i`.
pub fn read_i16_at(b: &Vec<u8>, i: usize) -> (r: i16)
    requires
        i + 2 <= b@.len(),
    ensures
        r as int == le_i16(b@, i as int),
{
    let w: u16 = read_u16_at(b, i);
    if w >= 0x8000 {
        -((0xFFFFu16 - w) as i16) - 1
    } else {
        w as i16
    }
}

/// Read the signed little-endian 32-bit field at offset `i`.
pub fn read_i32_at(b: &Vec<u8>, i: usize) -> (r: i32)
    requires
        i + 4 <= b@.len(),
    ensures
        r as int == le_i32(b@, i as int),
{
    let w: u32 = read_u32_at(b, i);
    if w >= 0x8000_0000 {
        -((0xFFFF_FFFFu32 - w) as i32) - 1
    } else {
        w as i32
    }
}

} // verus!
