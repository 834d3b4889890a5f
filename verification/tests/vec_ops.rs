//! Vector kernel: exact arithmetic, lengths, and normalization.

use pathtracer::fixed::{SCALE, ONE_FP, TWO_FP, HALF_FP};
use pathtracer::rng::RandSource;
use pathtracer::vec3::Vec3;

#[test]
fn componentwise_arithmetic_is_exact() {
    let a = Vec3::new(ONE_FP, 2 * SCALE, -3 * SCALE);
    let b = Vec3::new(HALF_FP, -ONE_FP, ONE_FP);
    assert_eq!(a.add(b), Vec3::new(ONE_FP + HALF_FP, SCALE, -2 * SCALE));
    assert_eq!(a.sub(b), Vec3::new(HALF_FP, 3 * SCALE, -4 * SCALE));
    assert_eq!(a.neg(), Vec3::new(-ONE_FP, -2 * SCALE, 3 * SCALE));
    assert_eq!(a.mul(b), Vec3::new(HALF_FP, -2 * SCALE, -3 * SCALE));
    assert_eq!(a.scale(TWO_FP), Vec3::new(2 * SCALE, 4 * SCALE, -6 * SCALE));
    assert_eq!(a.div_by(TWO_FP), Vec3::new(HALF_FP, ONE_FP, -3 * SCALE / 2));
    assert_eq!(a.div(b), Vec3::new(2 * SCALE, -2 * SCALE, -3 * SCALE));
}

#[test]
fn accessors_mirror_the_components() {
    let a = Vec3::new(1, 2, 3);
    assert_eq!((a.x(), a.y(), a.z()), (1, 2, 3));
    assert_eq!((a.r(), a.g(), a.b()), (1, 2, 3));
    assert_eq!(Vec3::zero(), Vec3::new(0, 0, 0));
    assert_eq!(Vec3::one(), Vec3::new(ONE_FP, ONE_FP, ONE_FP));
}

#[test]
fn dot_and_cross_products() {
    let a = Vec3::new(ONE_FP, 2 * SCALE, 3 * SCALE);
    let b = Vec3::new(4 * SCALE, -5 * SCALE, 6 * SCALE);
    // 1*4 + 2*(-5) + 3*6 = 12
    assert_eq!(a.dot(&b), 12 * SCALE);
    // (2*6 - 3*(-5), 3*4 - 1*6, 1*(-5) - 2*4) = (27, 6, -13)
    assert_eq!(a.cross(&b), Vec3::new(27 * SCALE, 6 * SCALE, -13 * SCALE));
    let x = Vec3::new(ONE_FP, 0, 0);
    let y = Vec3::new(0, ONE_FP, 0);
    assert_eq!(x.cross(&y), Vec3::new(0, 0, ONE_FP));
}

#[test]
fn length_of_a_pythagorean_triple_is_exact() {
    // (3, 4, 0) has length 5
    let v = Vec3::new(3 * SCALE, 4 * SCALE, 0);
    assert_eq!(v.squared_length(), 25 * SCALE);
    assert_eq!(v.length(), 5 * SCALE);
}

#[test]
fn unit_vector_length_is_one_within_tolerance() {
    // tolerance: 64 raw units is about 6e-5
    let tol = 64;
    let samples = [
        Vec3::new(ONE_FP, 0, 0),
        Vec3::new(3 * SCALE, 4 * SCALE, 0),
        Vec3::new(ONE_FP, ONE_FP, ONE_FP),
        Vec3::new(-2 * SCALE, 5 * SCALE, -7 * SCALE),
        Vec3::new(HALF_FP, -HALF_FP, HALF_FP),
        Vec3::new(123456, 654321, -777777),
    ];
    for v in samples {
        let l = v.unit_vector().length();
        assert!((l - ONE_FP).abs() <= tol, "unit length off: {}", l);
    }
}

#[test]
fn unit_vector_of_zero_degenerates_to_zero() {
    assert_eq!(Vec3::zero().unit_vector(), Vec3::zero());
}

#[test]
fn make_unit_vector_normalizes_in_place() {
    let mut v = Vec3::new(3 * SCALE, 4 * SCALE, 0);
    let u = v.unit_vector();
    v.make_unit_vector();
    assert_eq!(v, u);
}

#[test]
fn random_in_unit_sphere_stays_inside() {
    let mut rng = RandSource::from_seed(11);
    for _ in 0..200 {
        let p = Vec3::random_in_unit_sphere(&mut rng);
        assert!(p.squared_length() < SCALE);
        assert!(p.x().abs() <= SCALE && p.y().abs() <= SCALE && p.z().abs() <= SCALE);
    }
}

#[test]
fn random_source_is_reproducible_under_a_seed() {
    let mut a = RandSource::from_seed(42);
    let mut b = RandSource::from_seed(42);
    let mut all_equal_to_first = true;
    let first = a.next_unit();
    assert_eq!(first, b.next_unit());
    for _ in 0..100 {
        let x = a.next_unit();
        assert_eq!(x, b.next_unit());
        assert!(0 <= x && x < SCALE);
        if x != first {
            all_equal_to_first = false;
        }
    }
    assert!(!all_equal_to_first);
}
