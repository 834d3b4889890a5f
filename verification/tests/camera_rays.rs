//! Camera construction and ray generation.

use pathtracer::camera::Camera;
use pathtracer::fixed::{SCALE, ONE_FP, HALF_FP};
use pathtracer::rng::RandSource;
use pathtracer::vec3::Vec3;

fn pinhole_camera() -> Camera {
    Camera::new(
        Vec3::zero(),
        Vec3::new(0, 0, -ONE_FP),
        Vec3::new(0, ONE_FP, 0),
        90 * SCALE,
        ONE_FP,
        0,
        ONE_FP,
    )
}

#[test]
fn basis_of_an_axis_aligned_camera() {
    let cam = pinhole_camera();
    // u is +x, v is +y, within fixed-point rounding
    let tol = 64;
    assert!((cam.u.x() - ONE_FP).abs() <= tol);
    assert!(cam.u.y().abs() <= tol && cam.u.z().abs() <= tol);
    assert!((cam.v.y() - ONE_FP).abs() <= tol);
    assert!(cam.v.x().abs() <= tol && cam.v.z().abs() <= tol);
    assert_eq!(cam.origin, Vec3::zero());
    assert_eq!(cam.lens_radius, 0);
}

#[test]
fn ninety_degree_field_of_view_spans_two() {
    let cam = pinhole_camera();
    // half height = tan(45 degrees) = 1, so the vertical span is 2
    let tol = 512;
    assert!((cam.vertical.y() - 2 * SCALE).abs() <= tol, "{}", cam.vertical.y());
    assert!((cam.horizontal.x() - 2 * SCALE).abs() <= tol, "{}", cam.horizontal.x());
}

#[test]
fn pinhole_rays_are_deterministic_and_aimed() {
    let mut rng = RandSource::from_seed(21);
    let cam = pinhole_camera();
    // center of the image plane: straight ahead
    let r = cam.get_ray(HALF_FP, HALF_FP, &mut rng);
    assert_eq!(r.origin, Vec3::zero());
    let tol = 1024;
    assert!(r.direction.x().abs() <= tol, "{}", r.direction.x());
    assert!(r.direction.y().abs() <= tol, "{}", r.direction.y());
    assert!((r.direction.z() + ONE_FP).abs() <= tol, "{}", r.direction.z());
    // the same plane point gives the same ray (no lens jitter at zero
    // aperture), even though the lens sampler consumed random draws
    let r2 = cam.get_ray(HALF_FP, HALF_FP, &mut rng);
    assert_eq!(r, r2);
}

#[test]
fn lens_jitter_moves_the_ray_origin() {
    let mut rng = RandSource::from_seed(22);
    let cam = Camera::new(
        Vec3::zero(),
        Vec3::new(0, 0, -ONE_FP),
        Vec3::new(0, ONE_FP, 0),
        90 * SCALE,
        ONE_FP,
        HALF_FP,
        ONE_FP,
    );
    let mut moved = false;
    for _ in 0..20 {
        let r = cam.get_ray(HALF_FP, HALF_FP, &mut rng);
        if r.origin != Vec3::zero() {
            moved = true;
        }
        // the lens offset stays within the lens radius
        assert!(r.origin.x().abs() <= cam.lens_radius);
        assert!(r.origin.y().abs() <= cam.lens_radius);
        assert_eq!(r.origin.z(), 0);
    }
    assert!(moved, "twenty lens samples cannot all be the exact center");
}

#[test]
fn random_in_unit_disk_stays_inside_the_plane() {
    let mut rng = RandSource::from_seed(23);
    for _ in 0..200 {
        let p = Camera::random_in_unit_disk(&mut rng);
        assert!(p.dot(&p) < SCALE);
        assert_eq!(p.z(), 0);
    }
}

#[test]
fn oblique_camera_basis_is_orthonormal_within_tolerance() {
    let cam = Camera::new(
        Vec3::new(13 * SCALE, 2 * SCALE, 3 * SCALE),
        Vec3::zero(),
        Vec3::new(0, ONE_FP, 0),
        20 * SCALE,
        2 * SCALE,
        0,
        10 * SCALE,
    );
    let tol = 64;
    assert!((cam.u.length() - ONE_FP).abs() <= tol, "{}", cam.u.length());
    assert!((cam.v.length() - ONE_FP).abs() <= tol, "{}", cam.v.length());
    assert!(cam.u.dot(&cam.v).abs() <= tol, "{}", cam.u.dot(&cam.v));
}
