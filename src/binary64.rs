//! IEEE-754 binary64 values, held as their 64-bit encodings.
//!
//! The library makes every decision on encodings: the caller does the
//! floating-point arithmetic and hands over `f64::to_bits` of each operand.
//! An encoding is a sign bit followed by a 63-bit magnitude field (exponent
//! and fraction). For encodings that are not NaN, the order of the values is
//! the order of the signed magnitudes, with `+0` and `-0` equal.
use vstd::prelude::*;

verus! {

/// The sign bit.
pub const SIGN_BIT: u64 = 0x8000_0000_0000_0000;

/// `+inf`: the largest magnitude field that is not a NaN.
pub const INFINITY: u64 = 0x7ff0_0000_0000_0000;

/// `-inf`.
pub const NEG_INFINITY: u64 = 0xfff0_0000_0000_0000;

/// `+0.0`.
pub const ZERO: u64 = 0;

/// `-0.0`.
pub const NEG_ZERO: u64 = 0x8000_0000_0000_0000;

/// `1.0`.
pub const ONE: u64 = 0x3ff0_0000_0000_0000;

/// `-1.0`.
pub const NEG_ONE: u64 = 0xbff0_0000_0000_0000;

/// `-2.0`.
pub const NEG_TWO: u64 = 0xc000_0000_0000_0000;

/// `-1.05`, rounded to nearest.
pub const NEG_ONE_POINT_ZERO_FIVE: u64 = 0xbff0_cccc_cccc_cccd;

/// `pi`, rounded to nearest.
pub const PI: u64 = 0x4009_21fb_5444_2d18;

/// `-pi`.
pub const NEG_PI: u64 = 0xc009_21fb_5444_2d18;

/// `pi / 2`, exactly half of `PI`.
pub const HALF_PI: u64 = 0x3ff9_21fb_5444_2d18;

/// `2 * pi`, exactly twice `PI`.
pub const TWO_PI: u64 = 0x4019_21fb_5444_2d18;

/// `-2 * pi`.
pub const NEG_TWO_PI: u64 = 0xc019_21fb_5444_2d18;

/// `PI * PI`, rounded to nearest.
pub const PI_SQUARED: u64 = 0x4023_bd3c_c9be_45de;

/// `0.01`, rounded to nearest: the distance from a branch cut below which
/// an input is regularized.
pub const NEAR: u64 = 0x3f84_7ae1_47ae_147b;

/// `-1.0 + NEAR`, rounded to nearest.
pub const NEAR_CUT_END: u64 = 0xbfef_ae14_7ae1_47ae;

/// Whether the sign bit is set.
pub open spec fn sign_of(b: u64) -> bool {
    b >= SIGN_BIT
}

/// The exponent and fraction fields together, as one number.
pub open spec fn magnitude(b: u64) -> nat {
    if sign_of(b) {
        (b - SIGN_BIT) as nat
    } else {
        b as nat
    }
}

pub open spec fn nan(b: u64) -> bool {
    magnitude(b) > INFINITY
}

pub open spec fn infinite(b: u64) -> bool {
    magnitude(b) == INFINITY
}

/// The position of a value in the order of binary64 values: the magnitude,
/// negated when the sign bit is set. Both zeros stand at `0`.
pub open spec fn rank(b: u64) -> int {
    if sign_of(b) {
        -magnitude(b)
    } else {
        magnitude(b) as int
    }
}

/// `a < b` as binary64 compares: false when either is NaN.
pub open spec fn lt(a: u64, b: u64) -> bool {
    !nan(a) && !nan(b) && rank(a) < rank(b)
}

/// `a <= b` as binary64 compares: false when either is NaN.
pub open spec fn le(a: u64, b: u64) -> bool {
    !nan(a) && !nan(b) && rank(a) <= rank(b)
}

/// `a == b` as binary64 compares: false when either is NaN, true of `+0`
/// and `-0`.
pub open spec fn same_value(a: u64, b: u64) -> bool {
    !nan(a) && !nan(b) && rank(a) == rank(b)
}

/// The encoding with the sign bit flipped.
pub open spec fn negated(b: u64) -> u64 {
    if sign_of(b) {
        (b - SIGN_BIT) as u64
    } else {
        (b + SIGN_BIT) as u64
    }
}

/// The encoding with the sign bit cleared.
pub open spec fn absolute(b: u64) -> u64 {
    magnitude(b) as u64
}

/// The magnitude field of `b`: its absolute value's encoding.
pub fn abs(b: u64) -> (r: u64)
    ensures
        r == absolute(b),
        r as nat == magnitude(r),
        magnitude(r) == magnitude(b),
        !sign_of(r),
{
    if b >= SIGN_BIT {
        b - SIGN_BIT
    } else {
        b
    }
}

/// `b` with its sign bit flipped: the encoding of `-b`.
pub fn neg(b: u64) -> (r: u64)
    ensures
        r == negated(b),
        magnitude(r) == magnitude(b),
        sign_of(r) == !sign_of(b),
        !nan(b) ==> rank(r) == -rank(b),
{
    if b >= SIGN_BIT {
        b - SIGN_BIT
    } else {
        b + SIGN_BIT
    }
}

pub fn is_nan(b: u64) -> (r: bool)
    ensures
        r == nan(b),
{
    abs(b) > INFINITY
}

pub fn is_infinite(b: u64) -> (r: bool)
    ensures
        r == infinite(b),
{
    abs(b) == INFINITY
}

/// `a < b` on the values that `a` and `b` encode.
pub fn less(a: u64, b: u64) -> (r: bool)
    ensures
        r == lt(a, b),
{
    let ma = abs(a);
    let mb = abs(b);
    if ma > INFINITY || mb > INFINITY {
        false
    } else if a >= SIGN_BIT {
        if b >= SIGN_BIT {
            mb < ma
        } else {
            ma != 0 || mb != 0
        }
    } else {
        if b >= SIGN_BIT {
            false
        } else {
            ma < mb
        }
    }
}

/// `a <= b` on the values that `a` and `b` encode.
pub fn less_eq(a: u64, b: u64) -> (r: bool)
    ensures
        r == le(a, b),
{
    let ma = abs(a);
    let mb = abs(b);
    if ma > INFINITY || mb > INFINITY {
        false
    } else {
        !less(b, a)
    }
}

/// `a == b` on the values that `a` and `b` encode.
pub fn equal(a: u64, b: u64) -> (r: bool)
    ensures
        r == same_value(a, b),
{
    less_eq(a, b) && less_eq(b, a)
}

} // verus!
