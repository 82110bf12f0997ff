//! Exact values of the fixed-point scalar operations.

use raytrace::fx::{fx_abs, fx_add, fx_clamp, fx_div, fx_from_int, fx_min, fx_mul, fx_neg, fx_sqrt, fx_sub, FX_MAX, SCALE};
use raytrace::rng::Rng;

#[test]
fn add_sub_neg_exact() {
    assert_eq!(fx_add(SCALE, SCALE), 2 * SCALE);
    assert_eq!(fx_sub(SCALE, 3 * SCALE), -2 * SCALE);
    assert_eq!(fx_neg(42), -42);
    assert_eq!(fx_neg(i64::MIN), FX_MAX);
}

#[test]
fn add_saturates_symmetrically() {
    assert_eq!(fx_add(FX_MAX, FX_MAX), FX_MAX);
    assert_eq!(fx_sub(-FX_MAX, FX_MAX), -FX_MAX);
}

#[test]
fn mul_is_scaled_product() {
    // 1.5 * 1.5 == 2.25
    assert_eq!(fx_mul(98304, 98304), 147456);
    // truncation toward zero on both signs
    assert_eq!(fx_mul(1, 1), 0);
    assert_eq!(fx_mul(-3, 5), 0);
    assert_eq!(fx_mul(-SCALE, 5), -5);
}

#[test]
fn div_is_scaled_quotient() {
    // 1 / 2 == 0.5
    assert_eq!(fx_div(SCALE, 2 * SCALE), SCALE / 2);
    // truncation toward zero for a negative quotient
    assert_eq!(fx_div(-32768, 163840), -13107);
}

#[test]
fn sqrt_exact_squares() {
    assert_eq!(fx_sqrt(0), 0);
    // sqrt(1) == 1, sqrt(4) == 2
    assert_eq!(fx_sqrt(SCALE), SCALE);
    assert_eq!(fx_sqrt(4 * SCALE), 2 * SCALE);
    // sqrt(2) floor in fixed point: floor(sqrt(2) * 65536)
    assert_eq!(fx_sqrt(2 * SCALE), 92681);
}

#[test]
fn from_int_min_abs_clamp() {
    assert_eq!(fx_from_int(10), 655360);
    assert_eq!(fx_from_int(-3), -196608);
    assert_eq!(fx_min(4, -7), -7);
    assert_eq!(fx_abs(-SCALE), SCALE);
    assert_eq!(fx_clamp(100000, 0, SCALE), SCALE);
    assert_eq!(fx_clamp(-5, 0, SCALE), 0);
    assert_eq!(fx_clamp(123, 0, SCALE), 123);
}

#[test]
fn rng_is_deterministic_and_bounded() {
    let mut a = Rng::new(7);
    let mut b = Rng::new(7);
    for _ in 0..100 {
        let da = a.random_fx();
        let db = b.random_fx();
        assert_eq!(da, db);
        assert!(0 <= da && da < SCALE);
    }
    let mut c = Rng::new(8);
    let mut d = Rng::new(7);
    let first_of_7 = d.random_fx();
    assert_ne!(c.random_fx(), first_of_7);
}

#[test]
fn rng_range_draw_stays_inside() {
    let mut r = Rng::new(99);
    for _ in 0..200 {
        let v = r.random_fx_range(-SCALE, SCALE);
        assert!(-SCALE <= v && v <= SCALE);
    }
    let mut r2 = Rng::new(1);
    assert_eq!(r2.random_fx_range(5, 5), 5);
}
