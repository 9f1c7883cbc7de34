//! Fixed-point scalar arithmetic: exact values and non-finite propagation.

use bass_calc::scalar::{Scalar, SCALE};

fn raw(s: Scalar) -> i128 {
    s.to_raw().expect("expected a finite value")
}

#[test]
fn scale_is_one_trillion() {
    assert_eq!(SCALE, 1_000_000_000_000);
    assert_eq!(raw(Scalar::one()), SCALE);
    assert_eq!(raw(Scalar::zero()), 0);
    assert_eq!(raw(Scalar::from_int(-7)), -7 * SCALE);
    assert_eq!(raw(Scalar::from_micro(1_183_900)), 1_183_900_000_000);
}

#[test]
fn addition_and_subtraction_are_exact() {
    let a = Scalar::from_int(2);
    let b = Scalar::from_int(3);
    assert_eq!(raw(a.add(b)), 5 * SCALE);
    assert_eq!(raw(a.sub(b)), -SCALE);
    assert_eq!(raw(b.neg()), -3 * SCALE);
}

#[test]
fn multiplication_rounds_toward_negative_infinity() {
    let a = Scalar::from_int(2);
    let b = Scalar::from_int(3);
    assert_eq!(raw(a.mul(b)), 6 * SCALE);
    // One grid unit squared falls below the grid.
    assert_eq!(raw(Scalar::from_raw(1).mul(Scalar::from_raw(1))), 0);
    // Negative products round down, not toward zero.
    assert_eq!(raw(Scalar::from_raw(-1).mul(Scalar::from_raw(1))), -1);
}

#[test]
fn division_is_exact_on_the_grid() {
    let seven = Scalar::from_int(7);
    let two = Scalar::from_int(2);
    assert_eq!(raw(seven.div(two)), 3_500_000_000_000);
    assert_eq!(raw(seven.div(Scalar::from_int(-1))), -7 * SCALE);
}

#[test]
fn square_root_is_floored_to_the_grid() {
    assert_eq!(raw(Scalar::from_int(2).sqrt()), 1_414_213_562_373);
    assert_eq!(raw(Scalar::from_int(4).sqrt()), 2 * SCALE);
    assert_eq!(raw(Scalar::zero().sqrt()), 0);
}

#[test]
fn division_by_zero_is_non_finite() {
    let r = Scalar::one().div(Scalar::zero());
    assert!(!r.is_finite());
    assert_eq!(r.to_raw(), None);
}

#[test]
fn negative_square_root_is_non_finite() {
    assert!(!Scalar::from_int(-1).sqrt().is_finite());
}

#[test]
fn overflow_is_non_finite() {
    let big = Scalar::from_raw(i128::MAX);
    assert!(!big.mul(big).is_finite());
    assert!(!big.add(big).is_finite());
}

#[test]
fn non_finite_absorbs() {
    let nf = Scalar::non_finite();
    let one = Scalar::one();
    assert!(!nf.add(one).is_finite());
    assert!(!one.sub(nf).is_finite());
    assert!(!nf.mul(one).is_finite());
    assert!(!one.div(nf).is_finite());
    assert!(!nf.sqrt().is_finite());
}
