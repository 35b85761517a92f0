//! Exact-value checks of the fixed-point scalar operations.

use glimmer::fx::Fx;

#[test]
fn add_and_sub_are_exact() {
    let a = Fx::from_int(3);
    let b = Fx::from_int(5);
    assert_eq!(a.add(b).raw, 8 * 65536);
    assert_eq!(a.sub(b).raw, -2 * 65536);
}

#[test]
fn mul_rescales() {
    // 1.5 * 2.0 == 3.0
    let a = Fx::new(98304);
    let b = Fx::from_int(2);
    assert_eq!(a.mul(b).raw, 196608);
    // truncation toward zero on both signs
    assert_eq!(Fx::new(3).mul(Fx::new(3)).raw, 0);
    assert_eq!(Fx::new(-3).mul(Fx::new(3)).raw, 0);
}

#[test]
fn div_is_exact_and_total() {
    // 1 / 3 truncates
    assert_eq!(Fx::one().div(Fx::from_int(3)).raw, 21845);
    // division by zero is the defined sentinel, not a crash
    assert_eq!(Fx::from_int(7).div(Fx::zero()).raw, 0);
    // sign handling
    assert_eq!(Fx::from_int(-6).div(Fx::from_int(2)).raw, -3 * 65536);
}

#[test]
fn add_saturates_instead_of_overflowing() {
    let big = Fx::new(i64::MAX);
    assert_eq!(big.add(big).raw, i64::MAX);
    let small = Fx::new(i64::MIN);
    assert_eq!(small.add(small).raw, i64::MIN);
}

#[test]
fn sqrt_matches_integer_square_root() {
    // sqrt(4.0) == 2.0 exactly
    assert_eq!(Fx::from_int(4).sqrt().raw, 131072);
    // sqrt(2.0) == floor(sqrt(2^33)) at raw scale
    assert_eq!(Fx::from_int(2).sqrt().raw, 92681);
    // non-positive inputs give the zero sentinel
    assert_eq!(Fx::from_int(-1).sqrt().raw, 0);
    assert_eq!(Fx::zero().sqrt().raw, 0);
}

#[test]
fn comparisons_follow_raw_order() {
    assert!(Fx::new(-1).lt(Fx::zero()));
    assert!(Fx::zero().le(Fx::zero()));
    assert!(!Fx::one().lt(Fx::one()));
    assert!(Fx::zero().is_zero());
    assert!(!Fx::one().is_zero());
}
