//! The regions of the complex plane, each with its own series for the first
//! estimate of omega. Their defining inequalities overlap; the first region
//! in the order below whose inequalities hold is the one used.
use vstd::prelude::*;

use crate::binary64::{
    le, less, less_eq, lt, neg, negated, NEG_ONE, NEG_ONE_POINT_ZERO_FIVE, NEG_PI, NEG_TWO,
    NEG_TWO_PI, ONE, PI, PI_SQUARED, TWO_PI, ZERO,
};

verus! {

/// The region of `z = x + iy` that selects the series of the first estimate.
#[derive(Clone, Copy, Debug, PartialEq, Eq, Structural)]
pub enum Region {
    /// About the branch point `-1 + i*pi`.
    UpperBranchPoint,
    /// About the branch point `-1 - i*pi`.
    LowerBranchPoint,
    /// Between the two branch cuts, left of `x = -2`: the series about
    /// `-inf`.
    BetweenCuts,
    /// Around `z = 1`.
    Mushroom,
    /// Above the upper branch cut, left of `x = -1.05`.
    TopWing,
    /// Below the lower branch cut, left of `x = -1.05`.
    BottomWing,
    /// Everywhere else: the series about infinity.
    Elsewhere,
}

/// The binary64 results (encodings) that the region tests compare, computed
/// by the caller from `z = x + iy` in binary64 arithmetic.
#[derive(Clone, Copy, Debug, PartialEq, Eq, Structural)]
pub struct RegionOperands {
    /// `(x - 1) * (x - 1) + y * y`.
    pub disk: u64,
    /// `y - pi`.
    pub y_minus_pi: u64,
    /// `y + pi`.
    pub y_plus_pi: u64,
    /// `0.75 * (x + 1)`. Its negation is `-0.75 * (x + 1)`: binary64
    /// multiplication rounds the magnitude alone.
    pub slope: u64,
}

/// `-2 < x <= 1 && 1 < y < 2*pi`.
pub open spec fn upper_branch_point(x: u64, y: u64) -> bool {
    lt(NEG_TWO, x) && le(x, ONE) && lt(ONE, y) && lt(y, TWO_PI)
}

/// `-2 < x <= 1 && -2*pi < y < -1`.
pub open spec fn lower_branch_point(x: u64, y: u64) -> bool {
    lt(NEG_TWO, x) && le(x, ONE) && lt(NEG_TWO_PI, y) && lt(y, NEG_ONE)
}

/// `x <= -2 && -pi < y <= pi`.
pub open spec fn between_cuts(x: u64, y: u64) -> bool {
    le(x, NEG_TWO) && lt(NEG_PI, y) && le(y, PI)
}

/// `(-2 < x <= 1 && -1 <= y <= 1) || (-2 < x && (x-1)^2 + y^2 <= pi^2)`.
pub open spec fn mushroom(x: u64, y: u64, ops: RegionOperands) -> bool {
    (lt(NEG_TWO, x) && le(x, ONE) && le(NEG_ONE, y) && le(y, ONE)) || (lt(NEG_TWO, x) && le(
        ops.disk,
        PI_SQUARED,
    ))
}

/// `x <= -1.05 && pi < y && y - pi <= -0.75 * (x + 1)`.
pub open spec fn top_wing(x: u64, y: u64, ops: RegionOperands) -> bool {
    le(x, NEG_ONE_POINT_ZERO_FIVE) && lt(PI, y) && le(ops.y_minus_pi, negated(ops.slope))
}

/// `x <= -1.05 && 0.75 * (x + 1) < y + pi <= 0`.
pub open spec fn bottom_wing(x: u64, ops: RegionOperands) -> bool {
    le(x, NEG_ONE_POINT_ZERO_FIVE) && lt(ops.slope, ops.y_plus_pi) && le(ops.y_plus_pi, ZERO)
}

/// The first region whose inequalities hold of `x + iy`.
pub open spec fn region_of(x: u64, y: u64, ops: RegionOperands) -> Region {
    if upper_branch_point(x, y) {
        Region::UpperBranchPoint
    } else if lower_branch_point(x, y) {
        Region::LowerBranchPoint
    } else if between_cuts(x, y) {
        Region::BetweenCuts
    } else if mushroom(x, y, ops) {
        Region::Mushroom
    } else if top_wing(x, y, ops) {
        Region::TopWing
    } else if bottom_wing(x, ops) {
        Region::BottomWing
    } else {
        Region::Elsewhere
    }
}

/// The region of `x + iy` (encodings), with the binary64 quantities that its
/// tests compare.
pub fn classify(x: u64, y: u64, ops: &RegionOperands) -> (r: Region)
    ensures
        r == region_of(x, y, *ops),
{
    let left_of_one = less(NEG_TWO, x) && less_eq(x, ONE);
    if left_of_one && less(ONE, y) && less(y, TWO_PI) {
        Region::UpperBranchPoint
    } else if left_of_one && less(NEG_TWO_PI, y) && less(y, NEG_ONE) {
        Region::LowerBranchPoint
    } else if less_eq(x, NEG_TWO) && less(NEG_PI, y) && less_eq(y, PI) {
        Region::BetweenCuts
    } else if (left_of_one && less_eq(NEG_ONE, y) && less_eq(y, ONE)) || (less(NEG_TWO, x)
        && less_eq(ops.disk, PI_SQUARED)) {
        Region::Mushroom
    } else if less_eq(x, NEG_ONE_POINT_ZERO_FIVE) && less(PI, y) && less_eq(
        ops.y_minus_pi,
        neg(ops.slope),
    ) {
        Region::TopWing
    } else if less_eq(x, NEG_ONE_POINT_ZERO_FIVE) && less(ops.slope, ops.y_plus_pi) && less_eq(
        ops.y_plus_pi,
        ZERO,
    ) {
        Region::BottomWing
    } else {
        Region::Elsewhere
    }
}

} // verus!
