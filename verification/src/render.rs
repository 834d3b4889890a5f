//! The recursive color integrator, gamma correction, channel quantization,
//! and the per-pixel sampling loop of a render.

use vstd::prelude::*;
use crate::fixed::{SCALE, ONE_FP, HALF_FP, fadd, fsub, fmul, fdiv, fsqrt};
use crate::fixed::{add_fp, sub_fp, mul_fp, div_fp, sqrt_fp};
use crate::vec3::{Vec3, v_add, v_cmul, v_dot, v_scale, v_unit};
use crate::ray::Ray;
use crate::hittable::{Hittable, HittableList, Sphere, list_hit_spec};
use crate::material::{Hit, scatter_outcome};
use crate::camera::{Camera, get_ray_spec};
use crate::rng::RandSource;
use vstd::arithmetic::div_mod::lemma_fundamental_div_mod_converse;

verus! {

/// Lower bound of every intersection query: a guard against shadow acne
/// (self-intersection of a scattered ray at its own origin). One
/// thousandth, rounded to the nearest raw unit.
pub const T_MIN_FP: i64 = 1049;

/// Upper bound of every intersection query: effectively infinity.
pub const T_MAX_FP: i64 = i64::MAX;

/// The recursion cap of the integrator.
pub const MAX_DEPTH: i32 = 50;

/// Green channel of the sky color `(1/2, 7/10, 1)`, in raw units.
pub const SKY_G_FP: i64 = 734003;

/// The background gradient: white at the bottom of the view, sky blue at
/// the top, blended by `t = (unit(direction).y + 1) / 2`.
pub open spec fn background_spec(r: Ray) -> Vec3 {
    let t = fmul(HALF_FP as int, fadd(v_unit(r.direction).y as int, ONE_FP as int));
    v_add(
        v_scale(Vec3 { x: ONE_FP, y: ONE_FP, z: ONE_FP }, fsub(ONE_FP as int, t)),
        v_scale(Vec3 { x: HALF_FP, y: SKY_G_FP, z: ONE_FP }, t),
    )
}

/// What the integrator returns for a ray, whatever the random draws
/// were. A miss yields exactly the background gradient; a hit at or past
/// the recursion cap yields exactly black; a hit below the cap yields
/// black (absorption), or the attenuation of some admissible scatter
/// outcome times a recursive radiance that itself satisfies this very
/// relation for the scattered ray one level deeper.
pub open spec fn color_rel(spheres: Seq<Sphere>, r: Ray, depth: int, res: Vec3) -> bool
    decreases (MAX_DEPTH as int) - depth,
{
    match list_hit_spec(spheres, r, T_MIN_FP as int, T_MAX_FP as int) {
        None => res == background_spec(r),
        Some(rec) => if depth >= MAX_DEPTH as int {
            res == (Vec3 { x: 0i64, y: 0i64, z: 0i64 })
        } else {
            res == (Vec3 { x: 0i64, y: 0i64, z: 0i64 }) || (exists|h: Hit, sub: Vec3|
                #![trigger scatter_outcome(rec.material, r, rec, h), v_cmul(h.attenuation, sub)]
                scatter_outcome(rec.material, r, rec, h) && color_rel(
                    spheres,
                    h.scattered,
                    depth + 1,
                    sub,
                ) && res == v_cmul(h.attenuation, sub))
        },
    }
}

/// The radiance carried back along a ray: the background where nothing is
/// hit; otherwise the scattered recursion attenuated by the material, cut
/// to black at the recursion cap or when the material absorbs.
pub fn color(r: &Ray, world: &HittableList, depth: i32, rng: &mut RandSource) -> (res: Vec3)
    ensures
        color_rel(world.list@, *r, depth as int, res),
        list_hit_spec(world.list@, *r, T_MIN_FP as int, T_MAX_FP as int) is None ==> res
            == background_spec(*r),
        list_hit_spec(world.list@, *r, T_MIN_FP as int, T_MAX_FP as int) is Some && depth
            >= MAX_DEPTH ==> res == (Vec3 { x: 0i64, y: 0i64, z: 0i64 }),
    decreases MAX_DEPTH - depth,
{
    match world.hit(r, T_MIN_FP, T_MAX_FP) {
        Some(rec) => match rec.material.scatter(r, &rec, rng) {
            Some(hit) => {
                if depth < MAX_DEPTH {
                    let sub = color(&hit.scattered, world, depth + 1, rng);
                    let res = hit.attenuation.mul(sub);
                    proof {
                        assert(scatter_outcome(rec.material, *r, rec, hit) && color_rel(
                            world.list@,
                            hit.scattered,
                            depth as int + 1,
                            sub,
                        ) && res == v_cmul(hit.attenuation, sub));
                    }
                    res
                } else {
                    Vec3::zero()
                }
            },
            None => Vec3::zero(),
        },
        None => {
            let unit_direction = r.direction.unit_vector();
            let t = mul_fp(HALF_FP, add_fp(unit_direction.y(), ONE_FP));
            Vec3::one().scale(sub_fp(ONE_FP, t)).add(
                Vec3::new(HALF_FP, SKY_G_FP, ONE_FP).scale(t),
            )
        },
    }
}

/// Gamma correction by a componentwise square root.
pub open spec fn gamma_spec(c: Vec3) -> Vec3 {
    Vec3 { x: fsqrt(c.x as int) as i64, y: fsqrt(c.y as int) as i64, z: fsqrt(c.z as int) as i64 }
}

pub fn gamma_correct(c: Vec3) -> (res: Vec3)
    ensures
        res == gamma_spec(c),
        res.x as int == fsqrt(c.x as int),
        res.y as int == fsqrt(c.y as int),
        res.z as int == fsqrt(c.z as int),
{
    Vec3 { x: sqrt_fp(c.x), y: sqrt_fp(c.y), z: sqrt_fp(c.z) }
}

/// The quantization factor: just under 256, in raw units
/// (`25599/100`, so a channel of one lands on 255).
pub const F255_99: i64 = 268424970;

/// A gamma-corrected channel scaled into an integer in `[0, 255]` (for
/// channels inside `[0, 1]`): the integer part of the channel times the
/// quantization factor.
pub open spec fn quantize_spec(c: int) -> int {
    fmul(c, F255_99 as int) / (SCALE as int)
}

pub fn quantize_channel(c: i64) -> (res: i64)
    ensures
        res as int == quantize_spec(c as int),
{
    let q = mul_fp(c, F255_99);
    match q.checked_div_euclid(SCALE) {
        Some(res) => res,
        None => 0,
    }
}

/// One integer pixel, channels in the order red, green, blue.
#[derive(Clone, Copy, PartialEq, Eq, Structural, Debug)]
pub struct Pixel {
    pub r: i64,
    pub g: i64,
    pub b: i64,
}

/// A whole-number coordinate as a raw fixed-point value.
pub fn fp_from_usize(n: usize) -> (res: i64)
    requires
        n <= 8388608,
    ensures
        res as int == n * (SCALE as int),
{
    (n as i64) * SCALE
}

/// An admissible per-sample draw triple: the two plane jitters in
/// `[0, 1)` and a lens point of the unit disk.
pub open spec fn sample_ok(s: (i64, i64, Vec3)) -> bool {
    &&& 0 <= s.0 < SCALE
    &&& 0 <= s.1 < SCALE
    &&& v_dot(s.2, s.2) < SCALE as int
    &&& s.2.z == 0
}

/// The camera ray of one sample of the pixel at plane position
/// `(i_fp, j_fp)` of an image spanning `(nx_fp, ny_fp)`: the plane
/// coordinates are the jittered pixel coordinates divided by the spans.
pub open spec fn sample_ray(
    cam: Camera,
    i_fp: int,
    j_fp: int,
    nx_fp: int,
    ny_fp: int,
    s: (i64, i64, Vec3),
) -> Ray {
    get_ray_spec(
        cam,
        fdiv(fadd(i_fp, s.0 as int), nx_fp),
        fdiv(fadd(j_fp, s.1 as int), ny_fp),
        s.2,
    )
}

/// The sum, in draw order, of the background colors of the sample rays:
/// what a pixel of a sceneless render accumulates.
#[verifier::opaque]
pub open spec fn background_sum(
    cam: Camera,
    i_fp: int,
    j_fp: int,
    nx_fp: int,
    ny_fp: int,
    samples: Seq<(i64, i64, Vec3)>,
) -> Vec3
    decreases samples.len(),
{
    if samples.len() == 0 {
        Vec3 { x: 0i64, y: 0i64, z: 0i64 }
    } else {
        v_add(
            background_sum(cam, i_fp, j_fp, nx_fp, ny_fp, samples.drop_last()),
            background_spec(sample_ray(cam, i_fp, j_fp, nx_fp, ny_fp, samples.last())),
        )
    }
}

/// The pixel formed from an accumulated color: each channel is the
/// quantized square root of the channel divided by the sample count.
pub open spec fn pixel_spec(col: Vec3, ns_fp: int) -> Pixel {
    Pixel {
        r: quantize_spec(fsqrt(fdiv(col.x as int, ns_fp))) as i64,
        g: quantize_spec(fsqrt(fdiv(col.y as int, ns_fp))) as i64,
        b: quantize_spec(fsqrt(fdiv(col.z as int, ns_fp))) as i64,
    }
}

/// The pixel is the quantized gamma-corrected average of some
/// accumulated color.
pub open spec fn pixel_formed(pix: Pixel, ns_fp: int) -> bool {
    exists|col: Vec3| pix == pixel_spec(col, ns_fp)
}

/// The pixel of a sceneless render: the quantized gamma-corrected
/// average of the background colors of `ns` admissible sample rays.
pub open spec fn pixel_bg_formed(
    pix: Pixel,
    cam: Camera,
    i_fp: int,
    j_fp: int,
    nx_fp: int,
    ny_fp: int,
    ns: int,
    ns_fp: int,
) -> bool {
    exists|samples: Seq<(i64, i64, Vec3)>|
        samples.len() == ns && (forall|m: int|
            0 <= m < samples.len() ==> sample_ok(#[trigger] samples[m])) && pix == pixel_spec(
            background_sum(cam, i_fp, j_fp, nx_fp, ny_fp, samples),
            ns_fp,
        )
}

/// Appending a sample extends the background sum by the background of
/// that sample's ray.
proof fn lemma_background_sum_push(
    cam: Camera,
    i_fp: int,
    j_fp: int,
    nx_fp: int,
    ny_fp: int,
    cur: Seq<(i64, i64, Vec3)>,
    smp: (i64, i64, Vec3),
)
    ensures
        background_sum(cam, i_fp, j_fp, nx_fp, ny_fp, cur.push(smp)) == v_add(
            background_sum(cam, i_fp, j_fp, nx_fp, ny_fp, cur),
            background_spec(sample_ray(cam, i_fp, j_fp, nx_fp, ny_fp, smp)),
        ),
{
    reveal_with_fuel(background_sum, 2);
    assert(cur.push(smp).drop_last() =~= cur);
    assert(cur.push(smp).last() == smp);
}

/// The pixel of an accumulated color: quantize the gamma-corrected
/// average over the sample count.
pub fn quantize_pixel(col: Vec3, ns_fp: i64) -> (pix: Pixel)
    ensures
        pix == pixel_spec(col, ns_fp as int),
{
    let averaged = col.div_by(ns_fp);
    let corrected = gamma_correct(averaged);
    let pix = Pixel {
        r: quantize_channel(corrected.x),
        g: quantize_channel(corrected.y),
        b: quantize_channel(corrected.z),
    };
    proof {
        assert(corrected.x as int == fsqrt(fdiv(col.x as int, ns_fp as int)));
        assert(pix.r as int == quantize_spec(fsqrt(fdiv(col.x as int, ns_fp as int))));
        assert(corrected.y as int == fsqrt(fdiv(col.y as int, ns_fp as int)));
        assert(pix.g as int == quantize_spec(fsqrt(fdiv(col.y as int, ns_fp as int))));
        assert(corrected.z as int == fsqrt(fdiv(col.z as int, ns_fp as int)));
        assert(pix.b as int == quantize_spec(fsqrt(fdiv(col.z as int, ns_fp as int))));
    }
    pix
}

/// One pixel: jitter the plane coordinates afresh for each of the `ns`
/// samples, integrate the camera ray of each, and quantize the
/// gamma-corrected average of the accumulated color.
#[verifier::spinoff_prover]
pub fn render_pixel(
    world: &HittableList,
    cam: &Camera,
    i_fp: i64,
    j_fp: i64,
    nx_fp: i64,
    ny_fp: i64,
    ns: usize,
    ns_fp: i64,
    rng: &mut RandSource,
) -> (pix: Pixel)
    ensures
        pixel_formed(pix, ns_fp as int),
        world.list@.len() == 0 ==> pixel_bg_formed(
            pix,
            *cam,
            i_fp as int,
            j_fp as int,
            nx_fp as int,
            ny_fp as int,
            ns as int,
            ns_fp as int,
        ),
{
    let mut col = Vec3::zero();
    let ghost mut cur: Seq<(i64, i64, Vec3)> = Seq::empty();
    proof {
        reveal_with_fuel(background_sum, 1);
        assert(col == background_sum(
            *cam,
            i_fp as int,
            j_fp as int,
            nx_fp as int,
            ny_fp as int,
            cur,
        ));
    }
    let mut s: usize = 0;
    while s < ns
        invariant
            s <= ns,
            cur.len() == s as int,
            world.list@.len() == 0 ==> ((forall|m: int|
                0 <= m < cur.len() ==> sample_ok(#[trigger] cur[m])) && col == background_sum(
                *cam,
                i_fp as int,
                j_fp as int,
                nx_fp as int,
                ny_fp as int,
                cur,
            )),
        decreases ns - s,
    {
        let ru = rng.next_unit();
        let u = div_fp(add_fp(i_fp, ru), nx_fp);
        let rv = rng.next_unit();
        let v = div_fp(add_fp(j_fp, rv), ny_fp);
        let r = cam.get_ray(u, v, rng);
        let c = color(&r, world, 0, rng);
        col = col.add(c);
        proof {
            if world.list@.len() == 0 {
                let p = choose|p: Vec3|
                    v_dot(p, p) < SCALE as int && p.z == 0 && r == get_ray_spec(
                        *cam,
                        u as int,
                        v as int,
                        p,
                    );
                let smp = (ru, rv, p);
                assert(sample_ok(smp));
                assert(sample_ray(*cam, i_fp as int, j_fp as int, nx_fp as int, ny_fp as int, smp)
                    == r);
                assert(list_hit_spec(world.list@, r, T_MIN_FP as int, T_MAX_FP as int) is None);
                assert(c == background_spec(r));
                lemma_background_sum_push(
                    *cam,
                    i_fp as int,
                    j_fp as int,
                    nx_fp as int,
                    ny_fp as int,
                    cur,
                    smp,
                );
                cur = cur.push(smp);
            } else {
                cur = cur.push((0i64, 0i64, Vec3 { x: 0, y: 0, z: 0 }));
            }
        }
        s = s + 1;
    }
    let pix = quantize_pixel(col, ns_fp);
    proof {
        if world.list@.len() == 0 {
            assert(cur.len() == ns as int && (forall|m: int|
                0 <= m < cur.len() ==> sample_ok(#[trigger] cur[m])) && pix == pixel_spec(
                background_sum(*cam, i_fp as int, j_fp as int, nx_fp as int, ny_fp as int, cur),
                ns_fp as int,
            ));
        }
    }
    pix
}

/// Render `nx` by `ny` pixels, top row first, left to right, `ns` samples
/// per pixel: each sample jitters the plane coordinates inside the pixel,
/// asks the camera for a ray and integrates it; the samples are averaged,
/// gamma-corrected and quantized. Each produced pixel is the quantized
/// gamma-corrected average of its samples; over an empty scene it is
/// exactly that average of background-gradient colors.
pub fn render(
    world: &HittableList,
    cam: &Camera,
    nx: usize,
    ny: usize,
    ns: usize,
    rng: &mut RandSource,
) -> (pixels: Vec<Pixel>)
    requires
        0 < nx <= 65536,
        0 < ny <= 65536,
        0 < ns <= 1048576,
    ensures
        pixels.len() == nx * ny,
        forall|k: int|
            0 <= k < pixels@.len() ==> pixel_formed(#[trigger] pixels@[k], ns * (SCALE as int)),
        world.list@.len() == 0 ==> forall|k: int|
            0 <= k < pixels@.len() ==> pixel_bg_formed(
                #[trigger] pixels@[k],
                *cam,
                (k % (nx as int)) * (SCALE as int),
                ((ny as int) - 1 - k / (nx as int)) * (SCALE as int),
                nx * (SCALE as int),
                ny * (SCALE as int),
                ns as int,
                ns * (SCALE as int),
            ),
{
    let mut pixels: Vec<Pixel> = Vec::new();
    let nx_fp = fp_from_usize(nx);
    let ny_fp = fp_from_usize(ny);
    let ns_fp = fp_from_usize(ns);
    let mut row: usize = 0;
    while row < ny
        invariant
            0 < nx <= 65536,
            0 < ny <= 65536,
            0 < ns <= 1048576,
            row <= ny,
            pixels.len() == row * nx,
            nx_fp as int == nx * (SCALE as int),
            ny_fp as int == ny * (SCALE as int),
            ns_fp as int == ns * (SCALE as int),
            forall|k: int|
                0 <= k < pixels@.len() ==> pixel_formed(#[trigger] pixels@[k], ns * (SCALE as int)),
            world.list@.len() == 0 ==> forall|k: int|
                0 <= k < pixels@.len() ==> pixel_bg_formed(
                    #[trigger] pixels@[k],
                    *cam,
                    (k % (nx as int)) * (SCALE as int),
                    ((ny as int) - 1 - k / (nx as int)) * (SCALE as int),
                    nx * (SCALE as int),
                    ny * (SCALE as int),
                    ns as int,
                    ns * (SCALE as int),
                ),
        decreases ny - row,
    {
        let j = ny - 1 - row;
        let j_fp = fp_from_usize(j);
        let mut i: usize = 0;
        while i < nx
            invariant
                0 < nx <= 65536,
                0 < ny <= 65536,
                0 < ns <= 1048576,
                row < ny,
                i <= nx,
                pixels.len() == row * nx + i,
                j == ny - 1 - row,
                nx_fp as int == nx * (SCALE as int),
                ny_fp as int == ny * (SCALE as int),
                ns_fp as int == ns * (SCALE as int),
                j_fp as int == j * (SCALE as int),
                forall|k: int|
                    0 <= k < pixels@.len() ==> pixel_formed(
                        #[trigger] pixels@[k],
                        ns * (SCALE as int),
                    ),
                world.list@.len() == 0 ==> forall|k: int|
                    0 <= k < pixels@.len() ==> pixel_bg_formed(
                        #[trigger] pixels@[k],
                        *cam,
                        (k % (nx as int)) * (SCALE as int),
                        ((ny as int) - 1 - k / (nx as int)) * (SCALE as int),
                        nx * (SCALE as int),
                        ny * (SCALE as int),
                        ns as int,
                        ns * (SCALE as int),
                    ),
            decreases nx - i,
        {
            let i_fp = fp_from_usize(i);
            let pix = render_pixel(world, cam, i_fp, j_fp, nx_fp, ny_fp, ns, ns_fp, rng);
            proof {
                let k = pixels@.len() as int;
                lemma_fundamental_div_mod_converse(k, nx as int, row as int, i as int);
                assert(i_fp as int == (k % (nx as int)) * (SCALE as int));
                assert(j_fp as int == ((ny as int) - 1 - k / (nx as int)) * (SCALE as int));
            }
            pixels.push(pix);
            i = i + 1;
        }
        proof {
            assert((row + 1) * nx == row * nx + nx) by (nonlinear_arith);
        }
        row = row + 1;
    }
    proof {
        assert(ny * nx == nx * ny) by (nonlinear_arith);
    }
    pixels
}

} // verus!
