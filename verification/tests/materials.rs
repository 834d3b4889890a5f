//! Reflection, refraction, Schlick reflectance, and the three scatter
//! behaviors.

use pathtracer::fixed::{SCALE, ONE_FP, HALF_FP};
use pathtracer::hittable::HitRecord;
use pathtracer::material::{Material, Lambertian, Metal, Dielectric, reflect, refract, schlick};
use pathtracer::ray::Ray;
use pathtracer::rng::RandSource;
use pathtracer::vec3::Vec3;

#[test]
fn reflect_mirrors_about_the_normal() {
    // v = (1, -1, 0), n = (0, 1, 0): reflection is (1, 1, 0)
    let v = Vec3::new(ONE_FP, -ONE_FP, 0);
    let n = Vec3::new(0, ONE_FP, 0);
    assert_eq!(reflect(&v, &n), Vec3::new(ONE_FP, ONE_FP, 0));
}

#[test]
fn reflect_reverses_the_normal_component() {
    // for unit v and n: dot(reflect(v,n), n) is -dot(v,n) within rounding
    let tol = 8;
    let n = Vec3::new(0, ONE_FP, 0);
    let samples = [
        Vec3::new(ONE_FP, 0, 0).unit_vector(),
        Vec3::new(3 * SCALE, -4 * SCALE, 0).unit_vector(),
        Vec3::new(ONE_FP, ONE_FP, ONE_FP).unit_vector(),
        Vec3::new(-123456, 654321, 333333).unit_vector(),
    ];
    for v in samples {
        let lhs = reflect(&v, &n).dot(&n);
        let rhs = -v.dot(&n);
        assert!((lhs - rhs).abs() <= tol, "{} vs {}", lhs, rhs);
    }
}

#[test]
fn refract_bends_straight_through_at_normal_incidence() {
    // straight-on incidence stays straight for any ratio
    let v = Vec3::new(0, -ONE_FP, 0);
    let n = Vec3::new(0, ONE_FP, 0);
    let refr = refract(&v, &n, ONE_FP).expect("no total internal reflection");
    let tol = 8;
    assert!((refr.x()).abs() <= tol);
    assert!((refr.y() + ONE_FP).abs() <= tol);
    assert!((refr.z()).abs() <= tol);
}

#[test]
fn refract_reports_total_internal_reflection() {
    // grazing incidence from the dense side: the discriminant goes negative
    let v = Vec3::new(ONE_FP, -104858, 0);
    let n = Vec3::new(0, ONE_FP, 0);
    // ratio 1.5 (dense to thin)
    assert!(refract(&v, &n, ONE_FP + HALF_FP).is_none());
}

#[test]
fn schlick_at_normal_incidence_is_four_percent() {
    // cosine 1, index 3/2: ((1 - 1.5)/(1 + 1.5))^2 = 0.04
    let got = schlick(ONE_FP, ONE_FP + HALF_FP);
    let expected = SCALE * 4 / 100;
    assert!((got - expected).abs() <= 8, "{} vs {}", got, expected);
}

#[test]
fn lambertian_always_scatters_from_the_hit_point() {
    let mut rng = RandSource::from_seed(5);
    let albedo = Vec3::new(419430, 209715, 104858);
    let m = Lambertian::new(419430, 209715, 104858);
    let rec = HitRecord {
        t: ONE_FP,
        p: Vec3::new(0, 0, -ONE_FP),
        normal: Vec3::new(0, 0, ONE_FP),
        material: m,
    };
    let r_in = Ray::new(&Vec3::zero(), &Vec3::new(0, 0, -ONE_FP));
    for _ in 0..50 {
        let hit = m.scatter(&r_in, &rec, &mut rng).expect("diffuse always scatters");
        assert_eq!(hit.attenuation, albedo);
        assert_eq!(hit.scattered.origin, rec.p);
        // the direction is the normal plus a point of the open unit ball
        let q = hit.scattered.direction.sub(rec.normal);
        assert!(q.squared_length() < SCALE);
    }
}

#[test]
fn fuzzless_metal_reflects_exactly() {
    let mut rng = RandSource::from_seed(6);
    let m = Metal::new(734003, 629146, HALF_FP, 0);
    let rec = HitRecord {
        t: ONE_FP,
        p: Vec3::new(0, 0, -ONE_FP),
        normal: Vec3::new(0, 0, ONE_FP),
        material: m,
    };
    // incoming straight down the axis: reflected straight back
    let r_in = Ray::new(&Vec3::zero(), &Vec3::new(0, 0, -ONE_FP));
    let hit = m.scatter(&r_in, &rec, &mut rng).expect("head-on reflection scatters");
    assert_eq!(hit.scattered.origin, rec.p);
    assert_eq!(hit.scattered.direction, Vec3::new(0, 0, ONE_FP));
    assert_eq!(hit.attenuation, Vec3::new(734003, 629146, HALF_FP));
}

#[test]
fn metal_absorbs_a_grazing_reflection() {
    let mut rng = RandSource::from_seed(7);
    let m = Metal::new(ONE_FP, ONE_FP, ONE_FP, 0);
    // normal perpendicular to the incoming direction: the reflected ray
    // does not leave the surface, so the scatter is absorbed
    let rec = HitRecord {
        t: ONE_FP,
        p: Vec3::zero(),
        normal: Vec3::new(ONE_FP, 0, 0),
        material: m,
    };
    let r_in = Ray::new(&Vec3::zero(), &Vec3::new(0, 0, -ONE_FP));
    assert!(m.scatter(&r_in, &rec, &mut rng).is_none());
}

#[test]
fn metal_new_clamps_the_fuzz() {
    let m = Metal::new(ONE_FP, ONE_FP, ONE_FP, 3 * SCALE);
    match m {
        Material::Metal(inner) => assert_eq!(inner.fuzz, ONE_FP),
        _ => panic!("metal expected"),
    }
}

#[test]
fn dielectric_always_scatters_with_fixed_attenuation() {
    let mut rng = RandSource::from_seed(8);
    let m = Dielectric::new(ONE_FP + HALF_FP);
    let rec = HitRecord {
        t: ONE_FP,
        p: Vec3::new(0, 0, -ONE_FP),
        normal: Vec3::new(0, 0, ONE_FP),
        material: m,
    };
    let r_in = Ray::new(&Vec3::zero(), &Vec3::new(0, 0, -ONE_FP));
    let reflected = reflect(&r_in.direction, &rec.normal);
    let refracted = refract(&r_in.direction, &rec.normal, schlick_free_ratio())
        .expect("head-on refraction is possible");
    for _ in 0..50 {
        let hit = m.scatter(&r_in, &rec, &mut rng).expect("dielectric always scatters");
        assert_eq!(hit.attenuation, Vec3::new(ONE_FP, ONE_FP, ONE_FP));
        assert_eq!(hit.scattered.origin, rec.p);
        assert!(
            hit.scattered.direction == reflected || hit.scattered.direction == refracted,
            "direction must be the reflected or the refracted ray"
        );
    }
}

// the entering-ray ratio 1/1.5 used by the dielectric test above
fn schlick_free_ratio() -> i64 {
    pathtracer::fixed::div_fp(ONE_FP, ONE_FP + HALF_FP)
}

#[test]
fn refract_grazes_at_the_zero_discriminant_boundary() {
    // unit incoming direction perpendicular to the normal, ratio one:
    // the discriminant is exactly zero and the ray grazes through
    let v = Vec3::new(ONE_FP, 0, 0);
    let n = Vec3::new(0, ONE_FP, 0);
    assert_eq!(refract(&v, &n, ONE_FP), Some(Vec3::new(ONE_FP, 0, 0)));
}

#[test]
fn reflect_twice_restores_but_once_does_not() {
    // reflecting is not idempotent: applying it again to its own result
    // undoes it (within rounding) instead of leaving it fixed
    let n = Vec3::new(0, ONE_FP, 0);
    let v = Vec3::new(3 * SCALE, -4 * SCALE, 0).unit_vector();
    let once = reflect(&v, &n);
    let twice = reflect(&once, &n);
    assert_ne!(once, v);
    let tol = 8;
    assert!((twice.x() - v.x()).abs() <= tol);
    assert!((twice.y() - v.y()).abs() <= tol);
    assert!((twice.z() - v.z()).abs() <= tol);
}

#[test]
fn cross_products_are_orthogonal_and_anticommute() {
    let a = Vec3::new(ONE_FP, 2 * SCALE, -3 * SCALE);
    let b = Vec3::new(HALF_FP, -ONE_FP, ONE_FP);
    let c = a.cross(&b);
    // orthogonal to both operands within rounding
    let tol = 8;
    assert!(c.dot(&a).abs() <= tol);
    assert!(c.dot(&b).abs() <= tol);
    // swapping the operands negates the product exactly
    assert_eq!(b.cross(&a), c.neg());
}

#[test]
fn refracted_directions_keep_near_unit_length() {
    // oblique incidence at a moderate index ratio: the refracted
    // direction is a unit vector within tolerance
    let v = Vec3::new(3 * SCALE, -4 * SCALE, 0).unit_vector();
    let n = Vec3::new(0, ONE_FP, 0);
    let ratio = pathtracer::fixed::div_fp(ONE_FP, ONE_FP + HALF_FP);
    let refr = refract(&v, &n, ratio).expect("refraction possible at this angle");
    let tol = 64;
    assert!((refr.length() - ONE_FP).abs() <= tol, "{}", refr.length());
}
