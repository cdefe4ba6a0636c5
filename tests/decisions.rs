use std::f64::consts::PI;

use wright_omega::binary64::{NEG_ONE, NEG_ZERO, ZERO};
use wright_omega::refine::{needs_second_step, regularization, Regularization};
use wright_omega::region::{classify, Region, RegionOperands};
use wright_omega::special::{special_value, Special};

fn region(x: f64, y: f64) -> Region {
    let ops = RegionOperands {
        disk: ((x - 1.0) * (x - 1.0) + y * y).to_bits(),
        y_minus_pi: (y - PI).to_bits(),
        y_plus_pi: (y + PI).to_bits(),
        slope: (0.75 * (x + 1.0)).to_bits(),
    };
    classify(x.to_bits(), y.to_bits(), &ops)
}

fn special(x: f64, y: f64) -> Special {
    special_value(x.to_bits(), y.to_bits())
}

fn cut(x: f64, y: f64) -> Regularization {
    regularization(x.to_bits(), (y - PI).to_bits(), (y + PI).to_bits())
}

#[test]
fn nan_components_are_undefined() {
    assert_eq!(special(f64::NAN, 0.0), Special::Undefined);
    assert_eq!(special(0.0, f64::NAN), Special::Undefined);
    assert_eq!(special(f64::NAN, f64::NAN), Special::Undefined);
    assert_eq!(special(f64::NEG_INFINITY, f64::NAN), Special::Undefined);
}

#[test]
fn minus_infinity_gives_signed_zeros() {
    match special(f64::NEG_INFINITY, 0.5) {
        Special::Exact { re, im } => {
            assert_eq!(f64::from_bits(re), 0.0);
            assert!(f64::from_bits(re).is_sign_positive());
            assert!(f64::from_bits(im).is_sign_positive());
        }
        other => panic!("unexpected {:?}", other),
    }
    match special(f64::NEG_INFINITY, 2.0) {
        Special::Exact { re, im } => {
            assert_eq!(f64::from_bits(re), 0.0);
            assert!(f64::from_bits(re).is_sign_negative());
            assert!(f64::from_bits(im).is_sign_positive());
        }
        other => panic!("unexpected {:?}", other),
    }
    assert_eq!(special(f64::NEG_INFINITY, -0.5), Special::Exact { re: ZERO, im: NEG_ZERO });
    assert_eq!(special(f64::NEG_INFINITY, -2.0), Special::Exact { re: NEG_ZERO, im: NEG_ZERO });
    assert_eq!(special(f64::NEG_INFINITY, PI), Special::Exact { re: NEG_ZERO, im: ZERO });
    assert_eq!(special(f64::NEG_INFINITY, -0.0), Special::Exact { re: ZERO, im: ZERO });
}

#[test]
fn other_infinities_are_returned_unchanged() {
    let cases = [
        (f64::NEG_INFINITY, -PI),
        (f64::NEG_INFINITY, 4.0),
        (f64::INFINITY, 0.0),
        (1.0, f64::INFINITY),
        (-3.0, f64::NEG_INFINITY),
    ];
    for (x, y) in cases {
        assert_eq!(special(x, y), Special::Exact { re: x.to_bits(), im: y.to_bits() });
    }
}

#[test]
fn singular_points_give_minus_one() {
    let minus_one = Special::Exact { re: NEG_ONE, im: NEG_ZERO };
    assert_eq!(special(-1.0, PI), minus_one);
    assert_eq!(special(-1.0, -PI), minus_one);
    assert_eq!(special(-1.0, 3.0), Special::Regular);
    assert_eq!(special(-1.0000000000000002, PI), Special::Regular);
    assert_eq!(special(0.0, 0.0), Special::Regular);
}

#[test]
fn each_region_is_reached() {
    assert_eq!(region(-1.0, 2.0), Region::UpperBranchPoint);
    assert_eq!(region(-1.0, -2.0), Region::LowerBranchPoint);
    assert_eq!(region(-5.0, 0.0), Region::BetweenCuts);
    assert_eq!(region(0.0, 0.0), Region::Mushroom);
    assert_eq!(region(1.0, 0.0), Region::Mushroom);
    assert_eq!(region(3.0, 2.0), Region::Mushroom);
    assert_eq!(region(-3.0, 4.0), Region::TopWing);
    assert_eq!(region(-3.0, -4.0), Region::BottomWing);
    assert_eq!(region(10.0, 0.0), Region::Elsewhere);
    assert_eq!(region(-3.0, 10.0), Region::Elsewhere);
}

#[test]
fn region_order_decides_overlaps() {
    // inside both the branch point's box and the mushroom's disk
    assert_eq!(region(0.5, 1.5), Region::UpperBranchPoint);
    assert_eq!(region(0.5, -1.5), Region::LowerBranchPoint);
    // on x = -2 the branch point boxes are open, the band between cuts closed
    assert_eq!(region(-2.0, 0.0), Region::BetweenCuts);
    assert_eq!(region(-2.0 + 1e-6, 0.0), Region::Mushroom);
    assert_eq!(region(-2.0 - 1e-6, 0.0), Region::BetweenCuts);
}

#[test]
fn known_values_fall_in_their_regions() {
    let x = -1.0 / 3.0 + (1.0f64 / 3.0).ln();
    assert_eq!(region(x, PI), Region::UpperBranchPoint);
    assert_eq!(region(x, -PI), Region::LowerBranchPoint);
}

#[test]
fn regularization_near_the_cuts() {
    assert_eq!(cut(-2.0, PI - 0.005), Regularization::Upper { round_down: true });
    assert_eq!(cut(-2.0, PI + 0.005), Regularization::Upper { round_down: false });
    assert_eq!(cut(-2.0, -PI - 0.005), Regularization::Lower { round_up: true });
    assert_eq!(cut(-2.0, -PI + 0.005), Regularization::Lower { round_up: false });
    assert_eq!(cut(-2.0, PI - 0.02), Regularization::Keep);
    assert_eq!(cut(-0.5, PI), Regularization::Keep);
    assert_eq!(cut(-1.0 + 0.01, PI), Regularization::Upper { round_down: true });
    assert!(cut(-2.0, PI).flips_sign());
    assert!(!cut(0.0, 0.0).flips_sign());
}

#[test]
fn second_step_when_bound_reaches_tolerance() {
    assert!(needs_second_step(2.0f64.to_bits(), 1.0f64.to_bits()));
    assert!(needs_second_step(1.0f64.to_bits(), 1.0f64.to_bits()));
    assert!(!needs_second_step(1e-20f64.to_bits(), 1e-16f64.to_bits()));
    assert!(!needs_second_step(f64::NAN.to_bits(), 1.0f64.to_bits()));
    assert!(needs_second_step(f64::INFINITY.to_bits(), 1.0f64.to_bits()));
}

#[test]
fn decisions_repeat_exactly() {
    for (x, y) in [(0.0, 0.0), (-2.0, PI - 0.005), (-1.0, 2.0), (f64::NEG_INFINITY, 2.0)] {
        assert_eq!(special(x, y), special(x, y));
        assert_eq!(region(x, y), region(x, y));
        assert_eq!(cut(x, y), cut(x, y));
    }
}
