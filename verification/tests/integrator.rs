//! The recursive color integrator: background, absorption, recursion cap.

use pathtracer::fixed::{SCALE, ONE_FP, HALF_FP, add_fp, sub_fp, mul_fp};
use pathtracer::hittable::{Sphere, HittableList};
use pathtracer::material::{Metal, Lambertian};
use pathtracer::ray::Ray;
use pathtracer::render::{color, SKY_G_FP};
use pathtracer::rng::RandSource;
use pathtracer::vec3::Vec3;

// the background gradient, written with the public vector operations
fn expected_background(r: &Ray) -> Vec3 {
    let unit_direction = r.direction.unit_vector();
    let t = mul_fp(HALF_FP, add_fp(unit_direction.y(), ONE_FP));
    Vec3::one().scale(sub_fp(ONE_FP, t)).add(Vec3::new(HALF_FP, SKY_G_FP, ONE_FP).scale(t))
}

#[test]
fn empty_scene_returns_the_exact_background() {
    let mut rng = RandSource::from_seed(1);
    let world = HittableList { list: vec![] };
    let rays = [
        Ray::new(&Vec3::zero(), &Vec3::new(0, 0, -ONE_FP)),
        Ray::new(&Vec3::zero(), &Vec3::new(ONE_FP, ONE_FP, -ONE_FP)),
        Ray::new(&Vec3::new(ONE_FP, 0, 0), &Vec3::new(0, -ONE_FP, 0)),
    ];
    for r in rays {
        assert_eq!(color(&r, &world, 0, &mut rng), expected_background(&r));
    }
}

#[test]
fn missing_every_surface_returns_the_exact_background() {
    let mut rng = RandSource::from_seed(2);
    let world = HittableList {
        list: vec![
            Sphere {
                center: Vec3::new(0, 0, -4 * SCALE),
                radius: HALF_FP,
                material: Lambertian::new(HALF_FP, HALF_FP, HALF_FP),
            },
        ],
    };
    // aimed well away from the sphere
    let r = Ray::new(&Vec3::zero(), &Vec3::new(0, ONE_FP, ONE_FP));
    assert_eq!(color(&r, &world, 0, &mut rng), expected_background(&r));
}

#[test]
fn background_varies_with_ray_height() {
    let mut rng = RandSource::from_seed(3);
    let world = HittableList { list: vec![] };
    let up = Ray::new(&Vec3::zero(), &Vec3::new(0, ONE_FP, 0));
    let down = Ray::new(&Vec3::zero(), &Vec3::new(0, -ONE_FP, 0));
    let c_up = color(&up, &world, 0, &mut rng);
    let c_down = color(&down, &world, 0, &mut rng);
    // looking up is sky blue, looking down is white
    assert_eq!(c_up, Vec3::new(HALF_FP, SKY_G_FP, ONE_FP));
    assert_eq!(c_down, Vec3::one());
}

#[test]
fn mirror_cavity_terminates_at_the_recursion_cap_in_black() {
    let mut rng = RandSource::from_seed(4);
    // two mutually facing fuzzless mirrors; a ray bouncing on the axis
    // never escapes, so the integrator must cut it to black at the cap
    let mirror = Metal::new(943718, 943718, 943718, 0);
    let world = HittableList {
        list: vec![
            Sphere { center: Vec3::zero(), radius: HALF_FP, material: mirror },
            Sphere { center: Vec3::new(0, 0, 4 * SCALE), radius: HALF_FP, material: mirror },
        ],
    };
    let r = Ray::new(&Vec3::new(0, 0, 2 * SCALE), &Vec3::new(0, 0, ONE_FP));
    assert_eq!(color(&r, &world, 0, &mut rng), Vec3::zero());
}

#[test]
fn depth_at_the_cap_returns_black_on_a_hit() {
    let mut rng = RandSource::from_seed(9);
    let world = HittableList {
        list: vec![
            Sphere {
                center: Vec3::new(0, 0, -2 * SCALE),
                radius: HALF_FP,
                material: Lambertian::new(HALF_FP, HALF_FP, HALF_FP),
            },
        ],
    };
    let r = Ray::new(&Vec3::zero(), &Vec3::new(0, 0, -ONE_FP));
    assert_eq!(color(&r, &world, 50, &mut rng), Vec3::zero());
}
