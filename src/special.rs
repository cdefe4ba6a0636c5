//! Inputs on which the series and the refinement are not used: a NaN
//! component, an infinite component, and the two singular points
//! `-1 +- i*pi`.
use vstd::prelude::*;

use crate::binary64::{
    abs, equal, is_infinite, is_nan, le, less, less_eq, lt, nan, infinite, absolute, same_value,
    HALF_PI, NEG_ONE, NEG_PI, NEG_ZERO, PI, ZERO,
};

verus! {

/// What the pre-check decides of an input `x + iy`.
#[derive(Clone, Copy, Debug, PartialEq, Eq, Structural)]
pub enum Special {
    /// A component is NaN: omega is undefined.
    Undefined,
    /// Omega is `re + i*im` (encodings), with no refinement and no
    /// condition estimate.
    Exact { re: u64, im: u64 },
    /// The general path: classify, estimate, refine.
    Regular,
}

/// The signed zero that omega takes at `-inf + iy` for `-pi < y <= pi`: the
/// real part is `+0` where `|y| <= pi/2` and `-0` elsewhere, the imaginary
/// part `+0` where `y >= 0` and `-0` elsewhere.
pub open spec fn zero_at_minus_infinity(y: u64) -> Special {
    Special::Exact {
        re: if le(absolute(y), HALF_PI) { ZERO } else { NEG_ZERO },
        im: if le(ZERO, y) { ZERO } else { NEG_ZERO },
    }
}

/// The pre-check on `x + iy`, its tests taken in order.
pub open spec fn special_case(x: u64, y: u64) -> Special {
    if nan(x) || nan(y) {
        Special::Undefined
    } else if infinite(x) && lt(x, ZERO) && lt(NEG_PI, y) && le(y, PI) {
        zero_at_minus_infinity(y)
    } else if infinite(x) || infinite(y) {
        Special::Exact { re: x, im: y }
    } else if same_value(x, NEG_ONE) && same_value(absolute(y), PI) {
        Special::Exact { re: NEG_ONE, im: NEG_ZERO }
    } else {
        Special::Regular
    }
}

/// The pre-check on the input `x + iy`, given as encodings.
pub fn special_value(x: u64, y: u64) -> (r: Special)
    ensures
        r == special_case(x, y),
        r == Special::Undefined <==> nan(x) || nan(y),
        r == Special::Regular <==> !nan(x) && !nan(y) && !infinite(x) && !infinite(y) && !(
        same_value(x, NEG_ONE) && same_value(absolute(y), PI)),
{
    if is_nan(x) || is_nan(y) {
        Special::Undefined
    } else if is_infinite(x) && less(x, ZERO) && less(NEG_PI, y) && less_eq(y, PI) {
        let re = if less_eq(abs(y), HALF_PI) {
            ZERO
        } else {
            NEG_ZERO
        };
        let im = if less_eq(ZERO, y) {
            ZERO
        } else {
            NEG_ZERO
        };
        Special::Exact { re, im }
    } else if is_infinite(x) || is_infinite(y) {
        Special::Exact { re: x, im: y }
    } else if equal(x, NEG_ONE) && equal(abs(y), PI) {
        Special::Exact { re: NEG_ONE, im: NEG_ZERO }
    } else {
        Special::Regular
    }
}

} // verus!
