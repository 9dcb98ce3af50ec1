//! Single-precision numbers by their IEEE 754 bit patterns.
//!
//! The order of two numbers can be read off their patterns: below the sign bit
//! a larger pattern is a larger magnitude.

use vstd::prelude::*;

verus! {

/// The pattern of 0.0.
pub const ZERO: u32 = 0;

/// The pattern of 1.0.
pub const ONE: u32 = 0x3F80_0000;

/// The pattern of 1.0 divided by the square root of 2.0, both rounded.
pub const HALF_DIAGONAL: u32 = 0x3F35_04F3;

/// The sign bit.
pub const SIGN: u32 = 0x8000_0000;

/// The pattern of infinity. Patterns above it are not numbers.
pub const INFINITY: u32 = 0x7F80_0000;

/// The pattern without its sign.
pub open spec fn magnitude(bits: u32) -> int {
    (bits % SIGN) as int
}

/// The pattern is not a number.
pub open spec fn is_nan(bits: u32) -> bool {
    magnitude(bits) > INFINITY
}

/// An integer that orders the patterns as the numbers are ordered. The two
/// zeros are equal.
pub open spec fn rank(bits: u32) -> int {
    if bits >= SIGN {
        -magnitude(bits)
    } else {
        magnitude(bits)
    }
}

/// `a` is less than `b`. What is not a number is less than nothing and nothing
/// is less than it.
pub open spec fn less(a: u32, b: u32) -> bool {
    !is_nan(a) && !is_nan(b) && rank(a) < rank(b)
}

/// `v` brought into the range from `lo` to `hi`. What is not a number stays.
pub open spec fn clamped(v: u32, lo: u32, hi: u32) -> u32 {
    if less(v, lo) {
        lo
    } else if less(hi, v) {
        hi
    } else {
        v
    }
}

/// Whether `a` is less than `b`.
pub fn is_less(a: u32, b: u32) -> (r: bool)
    ensures
        r == less(a, b),
{
    let ma: u32 = a % SIGN;
    let mb: u32 = b % SIGN;
    if ma > INFINITY || mb > INFINITY {
        false
    } else if a >= SIGN {
        if b >= SIGN {
            mb < ma
        } else {
            ma > 0 || mb > 0
        }
    } else {
        if b >= SIGN {
            false
        } else {
            ma < mb
        }
    }
}

/// `v` brought into the range from `lo` to `hi`.
pub fn clamp(v: u32, lo: u32, hi: u32) -> (r: u32)
    requires
        !is_nan(lo),
        !is_nan(hi),
        !less(hi, lo),
    ensures
        r == clamped(v, lo, hi),
        !is_nan(v) ==> !less(r, lo) && !less(hi, r),
        is_nan(v) ==> r == v,
{
    if is_less(v, lo) {
        lo
    } else if is_less(hi, v) {
        hi
    } else {
        v
    }
}

} // verus!
