//! The material model: three scattering variants behind one closed sum
//! type, and the shared reflection, refraction and reflectance formulas.

use vstd::prelude::*;
use crate::fixed::{SCALE, ONE_FP, TWO_FP, fadd, fsub, fneg, fmul, fdiv, fsqrt};
use crate::fixed::{add_fp, sub_fp, neg_fp, mul_fp, div_fp, sqrt_fp};
use crate::vec3::{Vec3, v_add, v_sub, v_neg, v_scale, v_dot, v_unit, v_len, v_sqlen};
use crate::ray::Ray;
use crate::hittable::HitRecord;
use crate::rng::RandSource;

verus! {

/// A diffuse material: scatters toward the normal plus a random unit-ball
/// offset and attenuates by its albedo.
#[derive(Clone, Copy, PartialEq, Eq, Structural, Debug)]
pub struct Lambertian {
    pub albedo: Vec3,
}

/// A reflective material with a fuzziness in `[0, 1]` that perturbs the
/// mirrored direction.
#[derive(Clone, Copy, PartialEq, Eq, Structural, Debug)]
pub struct Metal {
    pub albedo: Vec3,
    pub fuzz: i64,
}

/// A refractive material described by its index of refraction.
#[derive(Clone, Copy, PartialEq, Eq, Structural, Debug)]
pub struct Dielectric {
    pub ref_idx: i64,
}

/// The closed set of material kinds a surface can carry.
#[derive(Clone, Copy, PartialEq, Eq, Structural, Debug)]
pub enum Material {
    Lambertian(Lambertian),
    Metal(Metal),
    Dielectric(Dielectric),
}

/// A successful scatter: the outgoing ray and the color attenuation.
#[derive(Clone, Copy, PartialEq, Eq, Structural, Debug)]
pub struct Hit {
    pub scattered: Ray,
    pub attenuation: Vec3,
}

impl Lambertian {
    pub fn new(x: i64, y: i64, z: i64) -> (m: Material)
        ensures
            m == Material::Lambertian(Lambertian { albedo: Vec3 { x, y, z } }),
    {
        Material::Lambertian(Lambertian { albedo: Vec3 { x, y, z } })
    }
}

impl Metal {
    /// The fuzziness is clamped to at most one.
    pub fn new(x: i64, y: i64, z: i64, fuzz: i64) -> (m: Material)
        ensures
            m == Material::Metal(
                Metal {
                    albedo: Vec3 { x, y, z },
                    fuzz: if fuzz < ONE_FP { fuzz } else { ONE_FP },
                },
            ),
    {
        let f = if fuzz < ONE_FP {
            fuzz
        } else {
            ONE_FP
        };
        Material::Metal(Metal { albedo: Vec3 { x, y, z }, fuzz: f })
    }
}

impl Dielectric {
    pub fn new(ref_idx: i64) -> (m: Material)
        ensures
            m == Material::Dielectric(Dielectric { ref_idx }),
    {
        Material::Dielectric(Dielectric { ref_idx })
    }
}

/// The mirror image of `v` about the normal `n`: `v - 2 * dot(v, n) * n`.
pub open spec fn reflect_spec(v: Vec3, n: Vec3) -> Vec3 {
    v_sub(v, v_scale(n, fmul(TWO_FP as int, v_dot(v, n))))
}

pub fn reflect(v: &Vec3, n: &Vec3) -> (res: Vec3)
    ensures
        res == reflect_spec(*v, *n),
{
    let s = mul_fp(TWO_FP, v.dot(n));
    v.sub(n.scale(s))
}

/// The refraction discriminant `1 - ni_over_nt^2 * (1 - dt^2)` where `dt`
/// is the cosine between the unit incoming direction and the normal.
pub open spec fn refract_disc_spec(v: Vec3, n: Vec3, ni_over_nt: int) -> int {
    let dt = v_dot(v_unit(v), n);
    fsub(ONE_FP as int, fmul(fmul(ni_over_nt, ni_over_nt), fsub(ONE_FP as int, fmul(dt, dt))))
}

/// The refracted direction by Snell's law, meaningful when the
/// discriminant is positive.
pub open spec fn refract_vec_spec(v: Vec3, n: Vec3, ni_over_nt: int) -> Vec3 {
    let uv = v_unit(v);
    let dt = v_dot(uv, n);
    v_sub(
        v_scale(v_sub(uv, v_scale(n, dt)), ni_over_nt),
        v_scale(n, fsqrt(refract_disc_spec(v, n, ni_over_nt))),
    )
}

/// Refraction attempt: the refracted direction whenever the discriminant
/// is not negative (a zero discriminant grazes along the surface), or
/// nothing under total internal reflection.
pub fn refract(v: &Vec3, n: &Vec3, ni_over_nt: i64) -> (res: Option<Vec3>)
    ensures
        refract_disc_spec(*v, *n, ni_over_nt as int) >= 0 ==> res == Some(
            refract_vec_spec(*v, *n, ni_over_nt as int),
        ),
        refract_disc_spec(*v, *n, ni_over_nt as int) < 0 ==> res is None,
{
    let uv = v.unit_vector();
    let dt = uv.dot(n);
    let discriminant = sub_fp(
        ONE_FP,
        mul_fp(mul_fp(ni_over_nt, ni_over_nt), sub_fp(ONE_FP, mul_fp(dt, dt))),
    );
    if discriminant >= 0 {
        Some(uv.sub(n.scale(dt)).scale(ni_over_nt).sub(n.scale(sqrt_fp(discriminant))))
    } else {
        None
    }
}

/// The fifth power, by repeated fixed-point squaring and one product.
pub open spec fn fpow5(a: int) -> int {
    fmul(fmul(fmul(a, a), fmul(a, a)), a)
}

/// The Schlick reflectance approximation:
/// `r0 + (1 - r0) * (1 - cosine)^5` with `r0 = ((1 - n) / (1 + n))^2`.
pub open spec fn schlick_spec(cosine: int, ref_idx: int) -> int {
    let r0 = fdiv(fsub(ONE_FP as int, ref_idx), fadd(ONE_FP as int, ref_idx));
    let r1 = fmul(r0, r0);
    fadd(r1, fmul(fsub(ONE_FP as int, r1), fpow5(fsub(ONE_FP as int, cosine))))
}

pub fn schlick(cosine: i64, ref_idx: i64) -> (res: i64)
    ensures
        res as int == schlick_spec(cosine as int, ref_idx as int),
{
    let r0 = div_fp(sub_fp(ONE_FP, ref_idx), add_fp(ONE_FP, ref_idx));
    let r1 = mul_fp(r0, r0);
    let a = sub_fp(ONE_FP, cosine);
    let a2 = mul_fp(a, a);
    add_fp(r1, mul_fp(sub_fp(ONE_FP, r1), mul_fp(mul_fp(a2, a2), a)))
}

/// The outward normal a dielectric refracts about: flipped when the ray
/// leaves the medium (direction and stored normal on the same side).
pub open spec fn diel_outward(r_in: Ray, rec: HitRecord) -> Vec3 {
    if v_dot(r_in.direction, rec.normal) > 0 {
        v_neg(rec.normal)
    } else {
        rec.normal
    }
}

/// The index-of-refraction ratio: the index itself on exit, its
/// reciprocal on entry.
pub open spec fn diel_ni_over_nt(d: Dielectric, r_in: Ray, rec: HitRecord) -> int {
    if v_dot(r_in.direction, rec.normal) > 0 {
        d.ref_idx as int
    } else {
        fdiv(ONE_FP as int, d.ref_idx as int)
    }
}

/// The cosine handed to the Schlick approximation, signed and scaled as
/// the scatter branch demands.
pub open spec fn diel_cosine(d: Dielectric, r_in: Ray, rec: HitRecord) -> int {
    if v_dot(r_in.direction, rec.normal) > 0 {
        fdiv(fmul(d.ref_idx as int, v_dot(r_in.direction, rec.normal)), v_len(r_in.direction))
    } else {
        fdiv(fneg(v_dot(r_in.direction, rec.normal)), v_len(r_in.direction))
    }
}

/// The probability of taking the reflected branch: the Schlick
/// reflectance when refraction is possible, else one (total internal
/// reflection).
pub open spec fn diel_reflect_prob(d: Dielectric, r_in: Ray, rec: HitRecord) -> int {
    if refract_disc_spec(r_in.direction, diel_outward(r_in, rec), diel_ni_over_nt(d, r_in, rec))
        >= 0 {
        schlick_spec(diel_cosine(d, r_in, rec), d.ref_idx as int)
    } else {
        SCALE as int
    }
}

/// The scattered direction of a dielectric for a uniform draw `u` in
/// `[0, SCALE)`: reflected when the draw falls below the reflectance,
/// else refracted. (With total internal reflection the probability is one,
/// so every draw reflects.)
pub open spec fn diel_direction(d: Dielectric, r_in: Ray, rec: HitRecord, u: int) -> Vec3 {
    if u < diel_reflect_prob(d, r_in, rec) {
        reflect_spec(r_in.direction, rec.normal)
    } else {
        refract_vec_spec(r_in.direction, diel_outward(r_in, rec), diel_ni_over_nt(d, r_in, rec))
    }
}

/// The direction a metal scatters to, given the random unit-ball point
/// `q`: the mirrored unit incoming direction, fuzzed by `q`.
pub open spec fn metal_direction(m: Metal, r_in: Ray, rec: HitRecord, q: Vec3) -> Vec3 {
    v_add(reflect_spec(v_unit(r_in.direction), rec.normal), v_scale(q, m.fuzz as int))
}

/// The direction a diffuse surface scatters to, given the random
/// unit-ball point `q`: the surface normal offset by `q`, which
/// approximates a cosine-weighted hemisphere distribution.
pub open spec fn lambertian_direction(rec: HitRecord, q: Vec3) -> Vec3 {
    v_add(rec.normal, q)
}

/// What holds of every successful scatter outcome `h`, whatever the
/// random draws were: the attenuation and the scattered ray's origin are
/// fixed by the material and the hit, and the direction is the material's
/// scattering formula for some admissible draw. For a fuzzless metal this
/// pins the direction to the exact mirrored one, so a grazing mirrored
/// direction admits no outcome at all.
pub open spec fn scatter_outcome(m: Material, r_in: Ray, rec: HitRecord, h: Hit) -> bool {
    match m {
        Material::Lambertian(l) => h.attenuation == l.albedo && h.scattered.origin == rec.p && (
        exists|q: Vec3|
            #[trigger] v_sqlen(q) < SCALE as int && h.scattered.direction == lambertian_direction(
                rec,
                q,
            )),
        Material::Metal(mm) => h.attenuation == mm.albedo && h.scattered.origin == rec.p && v_dot(
            h.scattered.direction,
            rec.normal,
        ) > 0 && (exists|q: Vec3|
            #[trigger] v_sqlen(q) < SCALE as int && h.scattered.direction == metal_direction(
                mm,
                r_in,
                rec,
                q,
            )),
        Material::Dielectric(d) => h.attenuation == (Vec3 { x: SCALE, y: SCALE, z: SCALE })
            && h.scattered.origin == rec.p && (exists|u: i64|
            0 <= u < SCALE && h.scattered.direction == #[trigger] diel_direction(
                d,
                r_in,
                rec,
                u as int,
            )),
    }
}

impl Material {
    /// Scatter an incoming ray at a hit. No result signals full
    /// absorption. A diffuse surface always scatters toward the normal
    /// plus a random unit-ball point; a metal mirrors the unit incoming
    /// direction, fuzzes it, and absorbs a direction that points into the
    /// surface; a dielectric always scatters, choosing reflection with the
    /// Schlick probability and refraction otherwise.
    pub fn scatter(&self, r_in: &Ray, rec: &HitRecord, rng: &mut RandSource) -> (res: Option<Hit>)
        ensures
            (match *self {
                Material::Lambertian(l) => exists|q: Vec3|
                    #[trigger] v_sqlen(q) < SCALE as int && res == Some(
                        Hit {
                            scattered: Ray {
                                origin: rec.p,
                                direction: lambertian_direction(*rec, q),
                            },
                            attenuation: l.albedo,
                        },
                    ),
                Material::Metal(m) => (exists|q: Vec3|
                    #[trigger] v_sqlen(q) < SCALE as int && (if v_dot(
                        metal_direction(m, *r_in, *rec, q),
                        rec.normal,
                    ) > 0 {
                        res == Some(
                            Hit {
                                scattered: Ray {
                                    origin: rec.p,
                                    direction: metal_direction(m, *r_in, *rec, q),
                                },
                                attenuation: m.albedo,
                            },
                        )
                    } else {
                        res is None
                    })) && (m.fuzz == 0 ==> (if v_dot(
                    reflect_spec(v_unit(r_in.direction), rec.normal),
                    rec.normal,
                ) > 0 {
                    res == Some(
                        Hit {
                            scattered: Ray {
                                origin: rec.p,
                                direction: reflect_spec(v_unit(r_in.direction), rec.normal),
                            },
                            attenuation: m.albedo,
                        },
                    )
                } else {
                    res is None
                })),
                Material::Dielectric(d) => exists|u: i64|
                    0 <= u < SCALE && res == Some(
                        Hit {
                            scattered: Ray {
                                origin: rec.p,
                                direction: #[trigger] diel_direction(d, *r_in, *rec, u as int),
                            },
                            attenuation: Vec3 { x: SCALE, y: SCALE, z: SCALE },
                        },
                    ),
            }),
            res matches Some(h) ==> scatter_outcome(*self, *r_in, *rec, h),
            self is Lambertian ==> res is Some,
            self is Dielectric ==> res is Some,
    {
        match *self {
            Material::Lambertian(l) => {
                let rnd = Vec3::random_in_unit_sphere(rng);
                let direction = rec.normal.add(rnd);
                let scattered = Ray::new(&rec.p, &direction);
                Some(Hit { scattered, attenuation: l.albedo })
            },
            Material::Metal(m) => {
                let unit_dir = r_in.direction.unit_vector();
                let reflected = reflect(&unit_dir, &rec.normal);
                let rnd = Vec3::random_in_unit_sphere(rng);
                let dir = reflected.add(rnd.scale(m.fuzz));
                let scattered = Ray::new(&rec.p, &dir);
                if scattered.direction.dot(&rec.normal) > 0 {
                    Some(Hit { scattered, attenuation: m.albedo })
                } else {
                    None
                }
            },
            Material::Dielectric(d) => {
                let dt = r_in.direction.dot(&rec.normal);
                let len = r_in.direction.length();
                let outward_normal: Vec3;
                let ni_over_nt: i64;
                let cosine: i64;
                if dt > 0 {
                    outward_normal = rec.normal.neg();
                    ni_over_nt = d.ref_idx;
                    cosine = div_fp(mul_fp(d.ref_idx, dt), len);
                } else {
                    outward_normal = rec.normal;
                    ni_over_nt = div_fp(ONE_FP, d.ref_idx);
                    cosine = div_fp(neg_fp(dt), len);
                }
                let reflect_prob: i64;
                let refracted: Vec3;
                match refract(&r_in.direction, &outward_normal, ni_over_nt) {
                    Some(refr) => {
                        refracted = refr;
                        reflect_prob = schlick(cosine, d.ref_idx);
                    },
                    None => {
                        refracted = Vec3::zero();
                        reflect_prob = ONE_FP;
                    },
                }
                let reflected = reflect(&r_in.direction, &rec.normal);
                let draw = rng.next_unit();
                let scattered = if draw < reflect_prob {
                    Ray::new(&rec.p, &reflected)
                } else {
                    Ray::new(&rec.p, &refracted)
                };
                let out = Some(Hit { scattered, attenuation: Vec3::new(SCALE, SCALE, SCALE) });
                proof {
                    assert(0 <= draw < SCALE && out == Some(
                        Hit {
                            scattered: Ray {
                                origin: rec.p,
                                direction: diel_direction(d, *r_in, *rec, draw as int),
                            },
                            attenuation: Vec3 { x: SCALE, y: SCALE, z: SCALE },
                        },
                    ));
                }
                out
            },
        }
    }
}

} // verus!
