//! End-to-end rendering and the showcase scene builder.

use pathtracer::camera::Camera;
use pathtracer::fixed::{SCALE, ONE_FP, HALF_FP, add_fp, div_fp};
use pathtracer::hittable::{Sphere, HittableList};
use pathtracer::material::Material;
use pathtracer::render::{render, color, gamma_correct, quantize_channel, Pixel};
use pathtracer::rng::RandSource;
use pathtracer::vec3::Vec3;

fn test_camera() -> Camera {
    Camera::new(
        Vec3::zero(),
        Vec3::new(0, 0, -ONE_FP),
        Vec3::new(0, ONE_FP, 0),
        90 * SCALE,
        ONE_FP,
        0,
        ONE_FP,
    )
}

#[test]
fn two_by_two_render_of_an_empty_scene_is_the_background() {
    let world = HittableList { list: vec![] };
    let cam = test_camera();
    let mut rng = RandSource::from_seed(77);
    let pixels = render(&world, &cam, 2, 2, 1, &mut rng);
    assert_eq!(pixels.len(), 4);

    // replay the identical draw sequence and compute each pixel by hand:
    // rows from the top (j = 1 then j = 0), one sample per pixel
    let mut replay = RandSource::from_seed(77);
    let mut expected: Vec<Pixel> = Vec::new();
    for row in 0..2u32 {
        let j = 1 - row as i64;
        for i in 0..2i64 {
            let u = div_fp(add_fp(i * SCALE, replay.next_unit()), 2 * SCALE);
            let v = div_fp(add_fp(j * SCALE, replay.next_unit()), 2 * SCALE);
            let r = cam.get_ray(u, v, &mut replay);
            let col = color(&r, &world, 0, &mut replay);
            // one sample: the average is the sample divided by one
            let averaged = col.div_by(ONE_FP);
            let corrected = gamma_correct(averaged);
            expected.push(Pixel {
                r: quantize_channel(corrected.x()),
                g: quantize_channel(corrected.y()),
                b: quantize_channel(corrected.z()),
            });
        }
    }
    assert_eq!(pixels, expected);

    // every channel is inside the byte range
    for p in &pixels {
        assert!(0 <= p.r && p.r <= 255);
        assert!(0 <= p.g && p.g <= 255);
        assert!(0 <= p.b && p.b <= 255);
    }

    // the gradient varies by row: the top row is bluer than the bottom
    assert!(pixels[0].b >= pixels[2].b && pixels[1].b >= pixels[3].b);
    assert!(
        (pixels[0].r, pixels[0].g) != (pixels[2].r, pixels[2].g)
            || (pixels[1].r, pixels[1].g) != (pixels[3].r, pixels[3].g),
        "top and bottom rows must differ"
    );
}

#[test]
fn render_produces_one_pixel_per_coordinate() {
    let world = HittableList { list: vec![] };
    let cam = test_camera();
    let mut rng = RandSource::from_seed(78);
    let pixels = render(&world, &cam, 3, 2, 2, &mut rng);
    assert_eq!(pixels.len(), 6);
}

#[test]
fn random_scene_has_the_fixed_anchors() {
    let mut rng = RandSource::from_seed(79);
    let scene = HittableList::random_scene(&mut rng);
    let n = scene.list.len();
    assert!(n >= 4);
    let ground = &scene.list[0];
    assert_eq!(ground.center, Vec3::new(0, -1000 * SCALE, 0));
    assert_eq!(ground.radius, 1000 * SCALE);
    let glass = &scene.list[n - 3];
    assert_eq!(glass.center, Vec3::new(0, ONE_FP, 0));
    assert_eq!(glass.radius, ONE_FP);
    assert!(matches!(glass.material, Material::Dielectric(d) if d.ref_idx == ONE_FP + HALF_FP));
    let diffuse = &scene.list[n - 2];
    assert_eq!(diffuse.center, Vec3::new(-4 * SCALE, ONE_FP, 0));
    assert!(matches!(diffuse.material, Material::Lambertian(_)));
    let metal = &scene.list[n - 1];
    assert_eq!(metal.center, Vec3::new(4 * SCALE, ONE_FP, 0));
    assert!(matches!(metal.material, Material::Metal(m) if m.fuzz == 0));
    // every scattered small sphere sits on the ground plane, keeps its
    // distance from the metal column, and carries one of the three kinds
    for s in &scene.list[1..n - 3] {
        assert_eq!(s.radius, SCALE / 5);
        assert_eq!(s.center.y(), SCALE / 5);
        let d = s.center.sub(Vec3::new(4 * SCALE, SCALE / 5, 0)).length();
        assert!(d > 943718);
        match s.material {
            Material::Lambertian(l) => {
                assert!(0 <= l.albedo.x() && l.albedo.x() < SCALE);
            }
            Material::Metal(m) => {
                assert!(HALF_FP <= m.albedo.x() && m.albedo.x() < SCALE);
                assert!(0 <= m.fuzz && m.fuzz < HALF_FP);
            }
            Material::Dielectric(dd) => assert_eq!(dd.ref_idx, ONE_FP + HALF_FP),
        }
    }
}

#[test]
fn two_seeds_render_reproducibly() {
    let world = HittableList {
        list: vec![
            Sphere {
                center: Vec3::new(0, 0, -2 * SCALE),
                radius: HALF_FP,
                material: pathtracer::material::Lambertian::new(HALF_FP, HALF_FP, HALF_FP),
            },
        ],
    };
    let cam = test_camera();
    let mut rng1 = RandSource::from_seed(80);
    let mut rng2 = RandSource::from_seed(80);
    let a = render(&world, &cam, 2, 2, 2, &mut rng1);
    let b = render(&world, &cam, 2, 2, 2, &mut rng2);
    assert_eq!(a, b);
}
