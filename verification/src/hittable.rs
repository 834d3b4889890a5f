//! The intersection protocol: hit records, the sphere surface, and the
//! aggregate that returns the nearest hit among its members.

use vstd::prelude::*;
use crate::fixed::{SCALE, ONE_FP, HALF_FP, fadd, fsub, fneg, fmul, fdiv, fsqrt};
use crate::fixed::{add_fp, sub_fp, neg_fp, mul_fp, div_fp, sqrt_fp};
use crate::vec3::{Vec3, v_sub, v_div_by, v_dot, v_len};
use crate::ray::{Ray, ray_at};
use crate::material::{Material, Lambertian, Metal, Dielectric};
use crate::rng::RandSource;

verus! {

/// One intersection: the ray parameter, the world-space point, the outward
/// normal (signed by the sphere radius), and the material hit there.
#[derive(Clone, Copy, PartialEq, Eq, Structural, Debug)]
pub struct HitRecord {
    pub t: i64,
    pub p: Vec3,
    pub normal: Vec3,
    pub material: Material,
}

/// A sphere: center, signed radius (a negative radius flips the normal
/// inward, the hollow-shell trick), and its material.
#[derive(Clone, Copy, PartialEq, Eq, Structural, Debug)]
pub struct Sphere {
    pub center: Vec3,
    pub radius: i64,
    pub material: Material,
}

/// Quadratic coefficient `a = dot(dir, dir)` of the sphere intersection.
pub open spec fn sphere_a(r: Ray) -> int {
    v_dot(r.direction, r.direction)
}

/// Half coefficient `b = dot(origin - center, dir)`.
pub open spec fn sphere_b(s: Sphere, r: Ray) -> int {
    v_dot(v_sub(r.origin, s.center), r.direction)
}

/// Constant term `c = dot(oc, oc) - radius^2`.
pub open spec fn sphere_c(s: Sphere, r: Ray) -> int {
    fsub(
        v_dot(v_sub(r.origin, s.center), v_sub(r.origin, s.center)),
        fmul(s.radius as int, s.radius as int),
    )
}

/// The discriminant `b^2 - a * c` of the intersection quadratic.
pub open spec fn sphere_disc(s: Sphere, r: Ray) -> int {
    fsub(fmul(sphere_b(s, r), sphere_b(s, r)), fmul(sphere_a(r), sphere_c(s, r)))
}

/// The near root `(-b - sqrt(disc)) / a`.
pub open spec fn sphere_near_root(s: Sphere, r: Ray) -> int {
    fdiv(fsub(fneg(sphere_b(s, r)), fsqrt(sphere_disc(s, r))), sphere_a(r))
}

/// The far root `(-b + sqrt(disc)) / a`.
pub open spec fn sphere_far_root(s: Sphere, r: Ray) -> int {
    fdiv(fadd(fneg(sphere_b(s, r)), fsqrt(sphere_disc(s, r))), sphere_a(r))
}

/// The record produced for a hit at parameter `t`: the point of the ray
/// there, and the normal `(p - center) / radius` whose sign follows the
/// sign of the radius.
pub open spec fn sphere_record(s: Sphere, r: Ray, t: int) -> HitRecord {
    HitRecord {
        t: t as i64,
        p: ray_at(r, t),
        normal: v_div_by(v_sub(ray_at(r, t), s.center), s.radius as int),
        material: s.material,
    }
}

/// The sphere intersection result: with a positive discriminant, the near
/// root is preferred, then the far root, each accepted only strictly
/// inside `(t_min, t_max)`; otherwise no hit.
pub open spec fn sphere_hit_spec(s: Sphere, r: Ray, t_min: int, t_max: int) -> Option<HitRecord> {
    if sphere_disc(s, r) > 0 {
        let near = sphere_near_root(s, r);
        let far = sphere_far_root(s, r);
        if t_min < near && near < t_max {
            Some(sphere_record(s, r, near))
        } else if t_min < far && far < t_max {
            Some(sphere_record(s, r, far))
        } else {
            None
        }
    } else {
        None
    }
}

/// Anything a ray can intersect: a nearest-intersection query against its
/// own intersection specification.
pub trait Hittable {
    /// What the query returns, as a mathematical function of the ray and
    /// the open window `(t_min, t_max)`.
    spec fn hit_spec(&self, r: Ray, t_min: int, t_max: int) -> Option<HitRecord>;

    /// The nearest intersection strictly inside `(t_min, t_max)`, if any.
    fn hit(&self, r: &Ray, t_min: i64, t_max: i64) -> (res: Option<HitRecord>)
        ensures
            res == self.hit_spec(*r, t_min as int, t_max as int),
    ;
}

impl Hittable for Sphere {
    open spec fn hit_spec(&self, r: Ray, t_min: int, t_max: int) -> Option<HitRecord> {
        sphere_hit_spec(*self, r, t_min, t_max)
    }

    /// Solve `a t^2 + 2 b t + c = 0` and return the nearest root strictly
    /// inside `(t_min, t_max)`, if any, as a full hit record.
    fn hit(&self, r: &Ray, t_min: i64, t_max: i64) -> (res: Option<HitRecord>) {
        let oc = r.origin.sub(self.center);
        let a = r.direction.dot(&r.direction);
        let b = oc.dot(&r.direction);
        let c = sub_fp(oc.dot(&oc), mul_fp(self.radius, self.radius));
        let discriminant = sub_fp(mul_fp(b, b), mul_fp(a, c));
        if discriminant > 0 {
            let root = sqrt_fp(discriminant);
            let temp = div_fp(sub_fp(neg_fp(b), root), a);
            if temp < t_max && temp > t_min {
                return Some(
                    HitRecord {
                        t: temp,
                        p: r.point_at_parameter(temp),
                        normal: r.point_at_parameter(temp).sub(self.center).div_by(self.radius),
                        material: self.material,
                    },
                );
            }
            let temp = div_fp(add_fp(neg_fp(b), root), a);
            if temp < t_max && temp > t_min {
                return Some(
                    HitRecord {
                        t: temp,
                        p: r.point_at_parameter(temp),
                        normal: r.point_at_parameter(temp).sub(self.center).div_by(self.radius),
                        material: self.material,
                    },
                );
            }
        }
        None
    }
}

/// An ordered collection of spheres, semantically an unordered scene.
#[derive(Debug)]
pub struct HittableList {
    pub list: Vec<Sphere>,
}

/// The nearest hit among the members from index `i` on, with the search
/// window already narrowed to `(t_min, t_max)`: a hit of member `i`
/// narrows the window for the rest, and a nearer hit there wins.
pub open spec fn list_hit_from(
    spheres: Seq<Sphere>,
    r: Ray,
    t_min: int,
    t_max: int,
    i: int,
) -> Option<HitRecord>
    decreases spheres.len() - i,
{
    if i < 0 || i >= spheres.len() {
        None
    } else {
        match sphere_hit_spec(spheres[i], r, t_min, t_max) {
            Some(rec) => match list_hit_from(spheres, r, t_min, rec.t as int, i + 1) {
                Some(rec2) => Some(rec2),
                None => Some(rec),
            },
            None => list_hit_from(spheres, r, t_min, t_max, i + 1),
        }
    }
}

/// The nearest hit of the whole scene inside `(t_min, t_max)`.
pub open spec fn list_hit_spec(spheres: Seq<Sphere>, r: Ray, t_min: int, t_max: int) -> Option<
    HitRecord,
> {
    list_hit_from(spheres, r, t_min, t_max, 0)
}

/// What holds of every randomly scattered grid sphere of the showcase
/// scene, whatever the draws were: a small sphere sitting on the ground
/// plane, centered on a jittered grid cell, clear of the big metal
/// sphere's column, and carrying one of the three material kinds with
/// its parameters in the drawn ranges.
/// A jittered grid coordinate: the cell index scaled to fixed point,
/// offset by nine tenths of a unit draw.
pub open spec fn grid_coord(cell: int, jitter: int) -> int {
    fadd(cell * (SCALE as int), fmul(943718, jitter))
}

pub open spec fn grid_sphere(s: Sphere) -> bool {
    &&& s.radius == 209715
    &&& s.center.y == 209715
    &&& (exists|a: int, u: int|
        -5 <= a <= 4 && 0 <= u < SCALE && s.center.x as int == #[trigger] grid_coord(a, u))
    &&& (exists|b: int, u: int|
        -5 <= b <= 4 && 0 <= u < SCALE && s.center.z as int == #[trigger] grid_coord(b, u))
    &&& v_len(v_sub(s.center, Vec3 { x: 4194304, y: 209715, z: 0 })) > 943718
    &&& (match s.material {
        Material::Lambertian(l) => {
            &&& 0 <= l.albedo.x < SCALE
            &&& 0 <= l.albedo.y < SCALE
            &&& 0 <= l.albedo.z < SCALE
        },
        Material::Metal(m) => {
            &&& HALF_FP <= m.albedo.x < SCALE
            &&& HALF_FP <= m.albedo.y < SCALE
            &&& HALF_FP <= m.albedo.z < SCALE
            &&& 0 <= m.fuzz < HALF_FP
        },
        Material::Dielectric(d) => d.ref_idx == 1572864,
    })
}

impl HittableList {
    /// A randomized showcase scene: a huge gray ground sphere, up to one
    /// hundred small spheres of randomly chosen kind and color scattered
    /// on a grid (skipping those too close to the big metal sphere's
    /// column), and three unit spheres: glass, diffuse and metal. The raw
    /// constants are the fixed-point images of the scene parameters (grid
    /// jitter 9/10, small radius 1/5, kind thresholds 4/5 and 19/20,
    /// refraction index 3/2).
    pub fn random_scene(rng: &mut RandSource) -> (res: HittableList)
        ensures
            4 <= res.list@.len() <= 104,
            forall|k: int|
                1 <= k < res.list@.len() - 3 ==> grid_sphere(#[trigger] res.list@[k]),
            res.list@[0] == (Sphere {
                center: Vec3 { x: 0, y: -1048576000i64, z: 0 },
                radius: 1048576000,
                material: Material::Lambertian(
                    Lambertian { albedo: Vec3 { x: HALF_FP, y: HALF_FP, z: HALF_FP } },
                ),
            }),
            res.list@[res.list@.len() - 3] == (Sphere {
                center: Vec3 { x: 0, y: ONE_FP, z: 0 },
                radius: ONE_FP,
                material: Material::Dielectric(Dielectric { ref_idx: 1572864 }),
            }),
            res.list@[res.list@.len() - 2] == (Sphere {
                center: Vec3 { x: -4194304i64, y: ONE_FP, z: 0 },
                radius: ONE_FP,
                material: Material::Lambertian(
                    Lambertian { albedo: Vec3 { x: 419430, y: 209715, z: 104858 } },
                ),
            }),
            res.list@[res.list@.len() - 1] == (Sphere {
                center: Vec3 { x: 4194304, y: ONE_FP, z: 0 },
                radius: ONE_FP,
                material: Material::Metal(
                    Metal { albedo: Vec3 { x: 734003, y: 629146, z: HALF_FP }, fuzz: 0 },
                ),
            }),
    {
        let mut list: Vec<Sphere> = Vec::new();
        let ground = Sphere {
            center: Vec3::new(0, -1048576000, 0),
            radius: 1048576000,
            material: Lambertian::new(HALF_FP, HALF_FP, HALF_FP),
        };
        list.push(ground);
        let mut ai: u64 = 0;
        while ai < 10
            invariant
                ai <= 10,
                1 <= list@.len() <= 1 + 10 * ai,
                list@[0] == ground,
                forall|k: int| 1 <= k < list@.len() ==> grid_sphere(#[trigger] list@[k]),
            decreases 10 - ai,
        {
            let a = ai as i64 - 5;
            let mut bi: u64 = 0;
            while bi < 10
                invariant
                    ai < 10,
                    bi <= 10,
                    1 <= list@.len() <= 1 + 10 * ai + bi,
                    list@[0] == ground,
                    forall|k: int| 1 <= k < list@.len() ==> grid_sphere(#[trigger] list@[k]),
                    -5 <= a <= 4,
                decreases 10 - bi,
            {
                let b = bi as i64 - 5;
                let choose_mat = rng.next_unit();
                let jx = rng.next_unit();
                let jz = rng.next_unit();
                let center = Vec3::new(
                    add_fp(a * SCALE, mul_fp(943718, jx)),
                    209715,
                    add_fp(b * SCALE, mul_fp(943718, jz)),
                );
                if center.sub(Vec3::new(4194304, 209715, 0)).length() > 943718 {
                    let material = if choose_mat < 838861 {
                        let r1 = rng.next_unit();
                        let r2 = rng.next_unit();
                        let g1 = rng.next_unit();
                        let g2 = rng.next_unit();
                        let b1 = rng.next_unit();
                        let b2 = rng.next_unit();
                        proof {
                            assert(0 <= (r1 as int) * (r2 as int) < 1099511627776)
                                by (nonlinear_arith)
                                requires
                                    0 <= r1 < 1048576,
                                    0 <= r2 < 1048576,
                            ;
                            assert(0 <= (g1 as int) * (g2 as int) < 1099511627776)
                                by (nonlinear_arith)
                                requires
                                    0 <= g1 < 1048576,
                                    0 <= g2 < 1048576,
                            ;
                            assert(0 <= (b1 as int) * (b2 as int) < 1099511627776)
                                by (nonlinear_arith)
                                requires
                                    0 <= b1 < 1048576,
                                    0 <= b2 < 1048576,
                            ;
                        }
                        Lambertian::new(mul_fp(r1, r2), mul_fp(g1, g2), mul_fp(b1, b2))
                    } else if choose_mat < 996147 {
                        let m1 = rng.next_unit();
                        let m2 = rng.next_unit();
                        let m3 = rng.next_unit();
                        let mf = rng.next_unit();
                        Metal::new(
                            mul_fp(HALF_FP, add_fp(ONE_FP, m1)),
                            mul_fp(HALF_FP, add_fp(ONE_FP, m2)),
                            mul_fp(HALF_FP, add_fp(ONE_FP, m3)),
                            mul_fp(HALF_FP, mf),
                        )
                    } else {
                        Dielectric::new(1572864)
                    };
                    let sphere = Sphere { center, radius: 209715, material };
                    proof {
                        assert(sphere.center.x as int == grid_coord(a as int, jx as int));
                        assert(sphere.center.z as int == grid_coord(b as int, jz as int));
                        assert(grid_sphere(sphere));
                    }
                    list.push(sphere);
                }
                bi = bi + 1;
            }
            ai = ai + 1;
        }
        list.push(
            Sphere {
                center: Vec3::new(0, ONE_FP, 0),
                radius: ONE_FP,
                material: Dielectric::new(1572864),
            },
        );
        list.push(
            Sphere {
                center: Vec3::new(-4194304, ONE_FP, 0),
                radius: ONE_FP,
                material: Lambertian::new(419430, 209715, 104858),
            },
        );
        list.push(
            Sphere {
                center: Vec3::new(4194304, ONE_FP, 0),
                radius: ONE_FP,
                material: Metal::new(734003, 629146, HALF_FP, 0),
            },
        );
        HittableList { list }
    }

}

impl Hittable for HittableList {
    open spec fn hit_spec(&self, r: Ray, t_min: int, t_max: int) -> Option<HitRecord> {
        list_hit_spec(self.list@, r, t_min, t_max)
    }

    /// Iterate all members, narrowing the upper window bound to the
    /// closest accepted hit so far, and return the single closest hit.
    fn hit(&self, r: &Ray, t_min: i64, t_max: i64) -> (res: Option<HitRecord>) {
        let mut hit_record: Option<HitRecord> = None;
        let mut closest_so_far: i64 = t_max;
        let n = self.list.len();
        let mut i: usize = 0;
        while i < n
            invariant
                n == self.list@.len(),
                0 <= i <= n,
                match hit_record {
                    None => closest_so_far == t_max && list_hit_spec(
                        self.list@,
                        *r,
                        t_min as int,
                        t_max as int,
                    ) == list_hit_from(self.list@, *r, t_min as int, closest_so_far as int, i as int),
                    Some(best) => best.t == closest_so_far && list_hit_spec(
                        self.list@,
                        *r,
                        t_min as int,
                        t_max as int,
                    ) == (match list_hit_from(
                        self.list@,
                        *r,
                        t_min as int,
                        closest_so_far as int,
                        i as int,
                    ) {
                        Some(rec2) => Some(rec2),
                        None => Some(best),
                    }),
                },
            decreases n - i,
        {
            if let Some(temp_rec) = self.list[i].hit(r, t_min, closest_so_far) {
                closest_so_far = temp_rec.t;
                hit_record = Some(temp_rec);
            }
            i = i + 1;
        }
        hit_record
    }
}

} // verus!
