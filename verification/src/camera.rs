//! The thin-lens camera: an orthonormal basis derived once from the view
//! parameters, and per-call ray generation with random lens jitter.

use vstd::prelude::*;
use crate::fixed::{SCALE, TWO_FP, fmul, fdiv};
use crate::fixed::{mul_fp, div_fp};
use crate::vec3::{Vec3, v_add, v_sub, v_scale, v_cross, v_dot, v_unit};
use crate::ray::Ray;
use crate::rng::RandSource;
use crate::trig::{PI_FP, tan_spec, tan_fp};

verus! {

#[derive(Clone, Copy, PartialEq, Eq, Structural, Debug)]
pub struct Camera {
    pub origin: Vec3,
    pub lower_left_corner: Vec3,
    pub horizontal: Vec3,
    pub vertical: Vec3,
    pub u: Vec3,
    pub v: Vec3,
    pub lens_radius: i64,
}

/// The camera derived from the view parameters: orthonormal basis
/// `w = unit(from - at)`, `u = unit(vup x w)`, `v = w x u`; image plane
/// corner and spans scaled by the focus distance; half the aperture as
/// lens radius. The field of view `vfov` is in degrees, all lengths in
/// fixed point.
pub open spec fn camera_spec(
    look_from: Vec3,
    look_at: Vec3,
    vup: Vec3,
    vfov: int,
    aspect: int,
    aperture: int,
    focus_dist: int,
) -> Camera {
    let theta = fdiv(fmul(vfov, PI_FP as int), 180 * (SCALE as int));
    let half_height = tan_spec(fdiv(theta, TWO_FP as int));
    let half_width = fmul(aspect, half_height);
    let w = v_unit(v_sub(look_from, look_at));
    let u = v_unit(v_cross(vup, w));
    let v = v_cross(w, u);
    Camera {
        origin: look_from,
        lower_left_corner: v_sub(
            v_sub(
                v_sub(look_from, v_scale(u, fmul(half_width, focus_dist))),
                v_scale(v, fmul(half_height, focus_dist)),
            ),
            v_scale(w, focus_dist),
        ),
        horizontal: v_scale(u, fmul(fmul(TWO_FP as int, half_width), focus_dist)),
        vertical: v_scale(v, fmul(fmul(TWO_FP as int, half_height), focus_dist)),
        u,
        v,
        lens_radius: fdiv(aperture, TWO_FP as int) as i64,
    }
}

/// The ray of the camera through normalized plane coordinates `(s, t)`
/// with the lens point `p` (a point of the unit disk): the origin offset
/// by the scaled lens point projected on the basis, aimed at the image
/// plane.
pub open spec fn get_ray_spec(cam: Camera, s: int, t: int, p: Vec3) -> Ray {
    let rd = v_scale(p, cam.lens_radius as int);
    let offset = v_add(v_scale(cam.u, rd.x as int), v_scale(cam.v, rd.y as int));
    Ray {
        origin: v_add(cam.origin, offset),
        direction: v_sub(
            v_sub(
                v_add(v_add(cam.lower_left_corner, v_scale(cam.horizontal, s)), v_scale(
                    cam.vertical,
                    t,
                )),
                cam.origin,
            ),
            offset,
        ),
    }
}

impl Camera {
    pub fn new(
        look_from: Vec3,
        look_at: Vec3,
        vup: Vec3,
        vfov: i64,
        aspect: i64,
        aperture: i64,
        focus_dist: i64,
    ) -> (res: Camera)
        ensures
            res == camera_spec(
                look_from,
                look_at,
                vup,
                vfov as int,
                aspect as int,
                aperture as int,
                focus_dist as int,
            ),
    {
        let lens_radius = div_fp(aperture, TWO_FP);
        let theta = div_fp(mul_fp(vfov, PI_FP), 180 * SCALE);
        let half_height = tan_fp(div_fp(theta, TWO_FP));
        let half_width = mul_fp(aspect, half_height);
        let origin = look_from;
        let w = look_from.sub(look_at).unit_vector();
        let u = vup.cross(&w).unit_vector();
        let v = w.cross(&u);
        let lower_left_corner = origin.sub(u.scale(mul_fp(half_width, focus_dist))).sub(
            v.scale(mul_fp(half_height, focus_dist)),
        ).sub(w.scale(focus_dist));
        let horizontal = u.scale(mul_fp(mul_fp(TWO_FP, half_width), focus_dist));
        let vertical = v.scale(mul_fp(mul_fp(TWO_FP, half_height), focus_dist));
        Camera { origin, lower_left_corner, horizontal, vertical, u, v, lens_radius }
    }

    /// The ray through `(s, t)`, jittered by a fresh lens sample. With a
    /// zero lens radius the ray is the exact pinhole ray.
    pub fn get_ray(&self, s: i64, t: i64, rng: &mut RandSource) -> (res: Ray)
        ensures
            exists|p: Vec3|
                #[trigger] v_dot(p, p) < SCALE as int && p.z == 0 && res == get_ray_spec(
                    *self,
                    s as int,
                    t as int,
                    p,
                ),
            self.lens_radius == 0 ==> res == get_ray_spec(
                *self,
                s as int,
                t as int,
                Vec3 { x: 0, y: 0, z: 0 },
            ),
    {
        let rd = Self::random_in_unit_disk(rng).scale(self.lens_radius);
        let offset = self.u.scale(rd.x).add(self.v.scale(rd.y));
        Ray::new(
            &self.origin.add(offset),
            &self.lower_left_corner.add(self.horizontal.scale(s)).add(
                self.vertical.scale(t),
            ).sub(self.origin).sub(offset),
        )
    }

    /// A point sampled uniformly inside the open unit disk of the plane
    /// `z = 0` by rejection, with the same defensive iteration bound as
    /// the unit-ball sampler.
    pub fn random_in_unit_disk(rng: &mut RandSource) -> (p: Vec3)
        ensures
            v_dot(p, p) < SCALE as int,
            p.z == 0,
            -SCALE <= p.x <= SCALE,
            -SCALE <= p.y <= SCALE,
    {
        let mut i: u64 = 0;
        while i < 64
            invariant
                true,
            decreases 64 - i,
        {
            let x = 2 * rng.next_unit() - SCALE;
            let y = 2 * rng.next_unit() - SCALE;
            let p = Vec3 { x, y, z: 0 };
            if p.dot(&p) < SCALE {
                return p;
            }
            i = i + 1;
        }
        Vec3::zero()
    }
}

} // verus!
