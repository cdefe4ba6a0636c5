//! The decisions of the refinement: the regularization of an input near one
//! of the branch cuts `Im z = +-pi, Re z <= -1`, and whether the first
//! correction step already reached the precision of binary64.
use vstd::prelude::*;

use crate::binary64::{abs, absolute, le, less_eq, NEAR, NEAR_CUT_END, ZERO};

verus! {

/// How `z = x + iy` is regularized before the correction steps.
#[derive(Clone, Copy, Debug, PartialEq, Eq, Structural)]
pub enum Regularization {
    /// Far from both cuts: the sign `s` is `1` and `z` stays as it is.
    Keep,
    /// Near the cut at `Im z = pi`: `s` is `-1` and `Im z` becomes `y - pi`,
    /// rounded down to an integer when `round_down`.
    Upper { round_down: bool },
    /// Near the cut at `Im z = -pi`: `s` is `-1` and `Im z` becomes `y + pi`,
    /// rounded up to an integer when `round_up`.
    Lower { round_up: bool },
}

/// `x <= -1 + 0.01 && (|y - pi| <= 0.01 || |y + pi| <= 0.01)`, over the
/// encodings of `x`, `y - pi` and `y + pi`.
pub open spec fn near_cut(x: u64, y_minus_pi: u64, y_plus_pi: u64) -> bool {
    le(x, NEAR_CUT_END) && (le(absolute(y_minus_pi), NEAR) || le(absolute(y_plus_pi), NEAR))
}

/// The regularization of `x + iy`; the cut at `pi` is taken when both are
/// near.
pub open spec fn regularization_of(x: u64, y_minus_pi: u64, y_plus_pi: u64) -> Regularization {
    if !near_cut(x, y_minus_pi, y_plus_pi) {
        Regularization::Keep
    } else if le(absolute(y_minus_pi), NEAR) {
        Regularization::Upper { round_down: le(y_minus_pi, ZERO) }
    } else {
        Regularization::Lower { round_up: le(y_plus_pi, ZERO) }
    }
}

impl Regularization {
    /// Whether the sign `s` of the regularized problem is `-1`.
    pub open spec fn negates(self) -> bool {
        !(self is Keep)
    }

    /// Whether the estimate is negated before the correction steps and
    /// negated back after them.
    pub fn flips_sign(&self) -> (r: bool)
        ensures
            r == self.negates(),
    {
        match self {
            Regularization::Keep => false,
            _ => true,
        }
    }
}

/// The regularization of `x + iy`, from the encodings of `x`, `y - pi` and
/// `y + pi` as binary64 computes them.
pub fn regularization(x: u64, y_minus_pi: u64, y_plus_pi: u64) -> (r: Regularization)
    ensures
        r == regularization_of(x, y_minus_pi, y_plus_pi),
        r.negates() <==> near_cut(x, y_minus_pi, y_plus_pi),
{
    let near_upper = less_eq(abs(y_minus_pi), NEAR);
    if !less_eq(x, NEAR_CUT_END) {
        Regularization::Keep
    } else if near_upper {
        Regularization::Upper { round_down: less_eq(y_minus_pi, ZERO) }
    } else if less_eq(abs(y_plus_pi), NEAR) {
        Regularization::Lower { round_up: less_eq(y_plus_pi, ZERO) }
    } else {
        Regularization::Keep
    }
}

/// Whether a second correction step is taken: when the error bound after the
/// first, `|(2w^2 - 8w - 1) * |r|^4|` (encoding `bound`), is at least the
/// tolerance `eps * 72 * |w + 1|^6` (encoding `tolerance`). A NaN on either
/// side takes no second step.
pub fn needs_second_step(bound: u64, tolerance: u64) -> (r: bool)
    ensures
        r == le(tolerance, bound),
{
    less_eq(tolerance, bound)
}

} // verus!
