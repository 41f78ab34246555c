//! Single-precision scalars as bit patterns.
//!
//! Bit 31 is the sign, bits 30..23 the exponent, bits 22..0 the fraction. The
//! facts used here are the ones the format fixes: a pattern whose magnitude is
//! above that of infinity is a NaN, both zeros have magnitude 0, and among
//! patterns with a clear sign bit that are no NaN the numeric order is the
//! order of the patterns as unsigned integers.

use vstd::prelude::*;

verus! {

/// The pattern of `0.0`.
pub const ZERO: u32 = 0;

/// The pattern of `0.5`.
pub const HALF: u32 = 0x3f00_0000;

/// The pattern of `1.0`.
pub const ONE: u32 = 0x3f80_0000;

/// The sign bit.
pub const SIGN: u32 = 0x8000_0000;

/// The pattern of positive infinity.
pub const INFINITY: u32 = 0x7f80_0000;

/// The pattern with the sign bit cleared.
pub open spec fn magnitude(bits: u32) -> u32 {
    if bits >= SIGN {
        (bits - SIGN) as u32
    } else {
        bits
    }
}

/// Whether the pattern is a NaN.
pub open spec fn is_nan(bits: u32) -> bool {
    magnitude(bits) > INFINITY
}

/// Whether the pattern is `0.0` or `-0.0`.
pub open spec fn is_zero(bits: u32) -> bool {
    magnitude(bits) == 0
}

/// Whether two patterns compare equal as numbers: neither is a NaN, and they
/// are the same pattern or both are zeros.
pub open spec fn same_number(a: u32, b: u32) -> bool {
    &&& !is_nan(a)
    &&& !is_nan(b)
    &&& (a == b || (is_zero(a) && is_zero(b)))
}

/// Whether the number `bits` lies in the closed interval from `low` to `high`,
/// for bounds that are finite and above zero. Every number in such an
/// interval is positive, and so is every pattern between the bounds.
pub open spec fn within(bits: u32, low: u32, high: u32) -> bool {
    low <= bits <= high
}

pub fn scalar_magnitude(bits: u32) -> (m: u32)
    ensures
        m == magnitude(bits),
{
    if bits >= SIGN {
        bits - SIGN
    } else {
        bits
    }
}

pub fn scalar_is_nan(bits: u32) -> (r: bool)
    ensures
        r == is_nan(bits),
{
    scalar_magnitude(bits) > INFINITY
}

pub fn scalar_is_zero(bits: u32) -> (r: bool)
    ensures
        r == is_zero(bits),
{
    scalar_magnitude(bits) == 0
}

pub fn scalar_eq(a: u32, b: u32) -> (r: bool)
    ensures
        r == same_number(a, b),
{
    !scalar_is_nan(a) && !scalar_is_nan(b) && (a == b || (scalar_is_zero(a) && scalar_is_zero(
        b,
    )))
}

} // verus!
