//! Exact expected values of the fixed-point scalar kernel.

use pathtracer::fixed::{SCALE, ONE_FP, TWO_FP, HALF_FP};
use pathtracer::fixed::{add_fp, sub_fp, neg_fp, mul_fp, div_fp, sqrt_fp};

#[test]
fn add_and_sub_are_exact() {
    assert_eq!(add_fp(ONE_FP, HALF_FP), ONE_FP + HALF_FP);
    assert_eq!(sub_fp(ONE_FP, HALF_FP), HALF_FP);
    assert_eq!(add_fp(-ONE_FP, ONE_FP), 0);
}

#[test]
fn add_saturates_at_the_ends() {
    assert_eq!(add_fp(i64::MAX, ONE_FP), i64::MAX);
    assert_eq!(sub_fp(i64::MIN, ONE_FP), i64::MIN);
    assert_eq!(neg_fp(i64::MIN), i64::MAX);
}

#[test]
fn mul_matches_the_scaled_product() {
    // one half times one half is a quarter
    assert_eq!(mul_fp(HALF_FP, HALF_FP), SCALE / 4);
    assert_eq!(mul_fp(TWO_FP, TWO_FP), 4 * SCALE);
    assert_eq!(mul_fp(-HALF_FP, HALF_FP), -SCALE / 4);
    assert_eq!(mul_fp(0, i64::MAX), 0);
    // saturation: twice the largest value clamps
    assert_eq!(mul_fp(i64::MAX, TWO_FP), i64::MAX);
}

#[test]
fn mul_rounds_toward_minus_infinity() {
    // 1/SCALE * 1/SCALE is below one raw unit and rounds down to zero
    assert_eq!(mul_fp(1, 1), 0);
    // ... and for the negative product, down to minus one raw unit
    assert_eq!(mul_fp(-1, 1), -1);
}

#[test]
fn div_matches_the_scaled_quotient() {
    assert_eq!(div_fp(ONE_FP, TWO_FP), HALF_FP);
    assert_eq!(div_fp(3 * SCALE, TWO_FP), 3 * SCALE / 2);
    assert_eq!(div_fp(ONE_FP, -TWO_FP), -HALF_FP);
    // one third: the scaled quotient rounds down
    assert_eq!(div_fp(ONE_FP, 3 * SCALE), (SCALE as i128 * SCALE as i128 / (3 * SCALE as i128)) as i64);
}

#[test]
fn div_by_zero_is_zero() {
    assert_eq!(div_fp(ONE_FP, 0), 0);
    assert_eq!(div_fp(0, 0), 0);
    assert_eq!(div_fp(i64::MIN, 0), 0);
}

#[test]
fn sqrt_exact_squares() {
    assert_eq!(sqrt_fp(ONE_FP), ONE_FP);
    assert_eq!(sqrt_fp(4 * SCALE), 2 * SCALE);
    assert_eq!(sqrt_fp(SCALE / 4), HALF_FP);
    assert_eq!(sqrt_fp(0), 0);
}

#[test]
fn sqrt_rounds_down_and_absorbs_negatives() {
    // sqrt(2) = 1.41421356..., raw floor is 1482910
    assert_eq!(sqrt_fp(TWO_FP), 1482910);
    assert_eq!(sqrt_fp(-ONE_FP), 0);
}
