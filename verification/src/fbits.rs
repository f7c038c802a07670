//! IEEE-754 single-precision values represented by their bit patterns.
//!
//! The decoder never does floating-point arithmetic; it carries every
//! 32-bit float of the file as its raw little-endian word. Ordering,
//! negation and the infinity sentinels are exact integer operations on
//! those words, so they are implemented and proved here directly.

use vstd::prelude::*;

verus! {

/// Bit pattern of +infinity, the "empty" sentinel for a minimum.
pub const F32_POS_INF: u32 = 0x7F80_0000;

/// Bit pattern of -infinity, the "empty" sentinel for a maximum.
pub const F32_NEG_INF: u32 = 0xFF80_0000;

/// Exponent field of a float word (8 bits above the 23-bit fraction).
pub open spec fn f32_exp(w: u32) -> int {
    (w as int / 0x80_0000) % 0x100
}

/// Fraction field of a float word (low 23 bits).
pub open spec fn f32_frac(w: u32) -> int {
    w as int % 0x80_0000
}

/// A word denotes NaN when the exponent is all ones and the fraction is
/// non-zero.
pub open spec fn f32_is_nan(w: u32) -> bool {
    f32_exp(w) == 0xFF && f32_frac(w) != 0
}

/// Monotone key of a float word: on non-NaN words, `f32_key(a) <= f32_key(b)`
/// holds exactly when the float `a` encodes is at most the float `b` encodes
/// (with the two zeroes split as -0.0 < +0.0). Negative floats have the sign
/// bit set and order in reverse of their bit patterns.
pub open spec fn f32_key(w: u32) -> int {
    if w >= 0x8000_0000 {
        0xFFFF_FFFF - w as int
    } else {
        w as int + 0x8000_0000
    }
}

/// IEEE negation of a float word: flip the sign bit.
pub open spec fn f32_neg(w: u32) -> u32 {
    if w >= 0x8000_0000 {
        (w - 0x8000_0000) as u32
    } else {
        (w + 0x8000_0000) as u32
    }
}

/// The smaller of two float words, NaN operands ignored, ties keeping the
/// first operand.
pub open spec fn f32_min_spec(a: u32, b: u32) -> u32 {
    if f32_is_nan(a) {
        b
    } else if f32_is_nan(b) {
        a
    } else if f32_key(b) < f32_key(a) {
        b
    } else {
        a
    }
}

/// The larger of two float words, NaN operands ignored, ties keeping the
/// first operand.
pub open spec fn f32_max_spec(a: u32, b: u32) -> u32 {
    if f32_is_nan(a) {
        b
    } else if f32_is_nan(b) {
        a
    } else if f32_key(b) > f32_key(a) {
        b
    } else {
        a
    }
}

fn f32_is_nan_exec(w: u32) -> (r: bool)
    ensures
        r == f32_is_nan(w),
{
    (w / 0x80_0000) % 0x100 == 0xFF && w % 0x80_0000 != 0
}

fn f32_key_exec(w: u32) -> (r: u32)
    ensures
        r as int == f32_key(w),
{
    if w >= 0x8000_0000 {
        0xFFFF_FFFFu32 - w
    } else {
        w + 0x8000_0000
    }
}

/// Negate a float word by flipping its sign bit.
pub fn f32_neg_bits(w: u32) -> (r: u32)
    ensures
        r == f32_neg(w),
{
    if w >= 0x8000_0000 {
        w - 0x8000_0000
    } else {
        w + 0x8000_0000
    }
}

/// The smaller of two float words under the IEEE order, NaNs ignored.
pub fn f32_min_bits(a: u32, b: u32) -> (r: u32)
    ensures
        r == f32_min_spec(a, b),
{
    if f32_is_nan_exec(a) {
        b
    } else if f32_is_nan_exec(b) {
        a
    } else if f32_key_exec(b) < f32_key_exec(a) {
        b
    } else {
        a
    }
}

/// The larger of two float words under the IEEE order, NaNs ignored.
pub fn f32_max_bits(a: u32, b: u32) -> (r: u32)
    ensures
        r == f32_max_spec(a, b),
{
    if f32_is_nan_exec(a) {
        b
    } else if f32_is_nan_exec(b) {
        a
    } else if f32_key_exec(b) > f32_key_exec(a) {
        b
    } else {
        a
    }
}

} // verus!
