//! The 3-component fixed-point vector kernel: arithmetic, dot and cross
//! products, normalization, and rejection sampling inside the unit ball.
//!
//! Components are raw fixed-point values (see `fixed`); a vector stands
//! contextually for a position, a direction, or an RGB color.

use vstd::prelude::*;
use crate::fixed::{SCALE, fadd, fsub, fneg, fmul, fdiv, fsqrt};
use crate::fixed::{add_fp, sub_fp, neg_fp, mul_fp, div_fp, sqrt_fp};
use crate::rng::RandSource;

verus! {

#[derive(Clone, Copy, PartialEq, Eq, Structural, Debug)]
pub struct Vec3 {
    pub x: i64,
    pub y: i64,
    pub z: i64,
}

/// Componentwise fixed-point sum.
pub open spec fn v_add(a: Vec3, b: Vec3) -> Vec3 {
    Vec3 {
        x: fadd(a.x as int, b.x as int) as i64,
        y: fadd(a.y as int, b.y as int) as i64,
        z: fadd(a.z as int, b.z as int) as i64,
    }
}

/// Componentwise fixed-point difference.
pub open spec fn v_sub(a: Vec3, b: Vec3) -> Vec3 {
    Vec3 {
        x: fsub(a.x as int, b.x as int) as i64,
        y: fsub(a.y as int, b.y as int) as i64,
        z: fsub(a.z as int, b.z as int) as i64,
    }
}

/// Componentwise negation.
pub open spec fn v_neg(a: Vec3) -> Vec3 {
    Vec3 { x: fneg(a.x as int) as i64, y: fneg(a.y as int) as i64, z: fneg(a.z as int) as i64 }
}

/// Componentwise fixed-point product (used for color attenuation).
pub open spec fn v_cmul(a: Vec3, b: Vec3) -> Vec3 {
    Vec3 {
        x: fmul(a.x as int, b.x as int) as i64,
        y: fmul(a.y as int, b.y as int) as i64,
        z: fmul(a.z as int, b.z as int) as i64,
    }
}

/// Componentwise fixed-point quotient.
pub open spec fn v_cdiv(a: Vec3, b: Vec3) -> Vec3 {
    Vec3 {
        x: fdiv(a.x as int, b.x as int) as i64,
        y: fdiv(a.y as int, b.y as int) as i64,
        z: fdiv(a.z as int, b.z as int) as i64,
    }
}

/// The vector scaled by a fixed-point factor.
pub open spec fn v_scale(a: Vec3, t: int) -> Vec3 {
    Vec3 {
        x: fmul(a.x as int, t) as i64,
        y: fmul(a.y as int, t) as i64,
        z: fmul(a.z as int, t) as i64,
    }
}

/// The vector divided componentwise by a fixed-point scalar.
pub open spec fn v_div_by(a: Vec3, t: int) -> Vec3 {
    Vec3 {
        x: fdiv(a.x as int, t) as i64,
        y: fdiv(a.y as int, t) as i64,
        z: fdiv(a.z as int, t) as i64,
    }
}

/// The fixed-point dot product, summed left to right.
pub open spec fn v_dot(a: Vec3, b: Vec3) -> int {
    fadd(
        fadd(fmul(a.x as int, b.x as int), fmul(a.y as int, b.y as int)),
        fmul(a.z as int, b.z as int),
    )
}

/// The fixed-point cross product.
pub open spec fn v_cross(a: Vec3, b: Vec3) -> Vec3 {
    Vec3 {
        x: fsub(fmul(a.y as int, b.z as int), fmul(a.z as int, b.y as int)) as i64,
        y: fsub(fmul(a.z as int, b.x as int), fmul(a.x as int, b.z as int)) as i64,
        z: fsub(fmul(a.x as int, b.y as int), fmul(a.y as int, b.x as int)) as i64,
    }
}

/// The squared Euclidean length.
pub open spec fn v_sqlen(a: Vec3) -> int {
    v_dot(a, a)
}

/// The Euclidean length: the fixed-point square root of the squared length.
pub open spec fn v_len(a: Vec3) -> int {
    fsqrt(v_sqlen(a))
}

/// The unit vector: the vector divided by its length. A zero-length vector
/// degenerates silently to the zero vector (division by zero is zero).
pub open spec fn v_unit(a: Vec3) -> Vec3 {
    v_div_by(a, v_len(a))
}

impl Vec3 {
    pub fn new(x: i64, y: i64, z: i64) -> (res: Vec3)
        ensures
            res == (Vec3 { x, y, z }),
    {
        Vec3 { x, y, z }
    }

    pub fn zero() -> (res: Vec3)
        ensures
            res == (Vec3 { x: 0i64, y: 0i64, z: 0i64 }),
    {
        Vec3 { x: 0, y: 0, z: 0 }
    }

    pub fn one() -> (res: Vec3)
        ensures
            res == (Vec3 { x: SCALE, y: SCALE, z: SCALE }),
    {
        Vec3 { x: SCALE, y: SCALE, z: SCALE }
    }

    pub fn x(&self) -> (res: i64)
        ensures
            res == self.x,
    {
        self.x
    }

    pub fn y(&self) -> (res: i64)
        ensures
            res == self.y,
    {
        self.y
    }

    pub fn z(&self) -> (res: i64)
        ensures
            res == self.z,
    {
        self.z
    }

    /// The red channel of a color vector.
    pub fn r(&self) -> (res: i64)
        ensures
            res == self.x,
    {
        self.x
    }

    /// The green channel of a color vector.
    pub fn g(&self) -> (res: i64)
        ensures
            res == self.y,
    {
        self.y
    }

    /// The blue channel of a color vector.
    pub fn b(&self) -> (res: i64)
        ensures
            res == self.z,
    {
        self.z
    }

    pub fn add(self, o: Vec3) -> (res: Vec3)
        ensures
            res == v_add(self, o),
    {
        Vec3 { x: add_fp(self.x, o.x), y: add_fp(self.y, o.y), z: add_fp(self.z, o.z) }
    }

    pub fn sub(self, o: Vec3) -> (res: Vec3)
        ensures
            res == v_sub(self, o),
    {
        Vec3 { x: sub_fp(self.x, o.x), y: sub_fp(self.y, o.y), z: sub_fp(self.z, o.z) }
    }

    pub fn neg(self) -> (res: Vec3)
        ensures
            res == v_neg(self),
    {
        Vec3 { x: neg_fp(self.x), y: neg_fp(self.y), z: neg_fp(self.z) }
    }

    /// Componentwise product (color attenuation).
    pub fn mul(self, o: Vec3) -> (res: Vec3)
        ensures
            res == v_cmul(self, o),
    {
        Vec3 { x: mul_fp(self.x, o.x), y: mul_fp(self.y, o.y), z: mul_fp(self.z, o.z) }
    }

    /// Componentwise quotient (a zero component divides to zero).
    pub fn div(self, o: Vec3) -> (res: Vec3)
        ensures
            res == v_cdiv(self, o),
    {
        Vec3 { x: div_fp(self.x, o.x), y: div_fp(self.y, o.y), z: div_fp(self.z, o.z) }
    }

    /// The vector scaled by a fixed-point factor.
    pub fn scale(self, t: i64) -> (res: Vec3)
        ensures
            res == v_scale(self, t as int),
    {
        Vec3 { x: mul_fp(self.x, t), y: mul_fp(self.y, t), z: mul_fp(self.z, t) }
    }

    /// The vector divided by a fixed-point scalar.
    pub fn div_by(self, t: i64) -> (res: Vec3)
        ensures
            res == v_div_by(self, t as int),
    {
        Vec3 { x: div_fp(self.x, t), y: div_fp(self.y, t), z: div_fp(self.z, t) }
    }

    pub fn dot(&self, o: &Vec3) -> (res: i64)
        ensures
            res as int == v_dot(*self, *o),
    {
        add_fp(add_fp(mul_fp(self.x, o.x), mul_fp(self.y, o.y)), mul_fp(self.z, o.z))
    }

    pub fn cross(&self, o: &Vec3) -> (res: Vec3)
        ensures
            res == v_cross(*self, *o),
    {
        Vec3 {
            x: sub_fp(mul_fp(self.y, o.z), mul_fp(self.z, o.y)),
            y: sub_fp(mul_fp(self.z, o.x), mul_fp(self.x, o.z)),
            z: sub_fp(mul_fp(self.x, o.y), mul_fp(self.y, o.x)),
        }
    }

    pub fn squared_length(&self) -> (res: i64)
        ensures
            res as int == v_sqlen(*self),
    {
        self.dot(self)
    }

    pub fn length(&self) -> (res: i64)
        ensures
            res as int == v_len(*self),
            res >= 0,
    {
        sqrt_fp(self.squared_length())
    }

    pub fn unit_vector(&self) -> (res: Vec3)
        ensures
            res == v_unit(*self),
    {
        let l = self.length();
        self.div_by(l)
    }

    /// Normalize in place.
    pub fn make_unit_vector(&mut self)
        ensures
            *final(self) == v_unit(*old(self)),
    {
        let u = (*self).unit_vector();
        *self = u;
    }

    /// A point sampled uniformly inside the open unit ball by rejection:
    /// draw a point of the cube `[-1, 1)^3` and restart while its squared
    /// length is one or more. The loop is bounded defensively; after the
    /// bound (never reached in practice: each draw succeeds with chance
    /// above one half) the center of the ball is returned.
    pub fn random_in_unit_sphere(rng: &mut RandSource) -> (p: Vec3)
        ensures
            v_sqlen(p) < SCALE as int,
            -SCALE <= p.x <= SCALE,
            -SCALE <= p.y <= SCALE,
            -SCALE <= p.z <= SCALE,
    {
        let mut i: u64 = 0;
        while i < 64
            invariant
                true,
            decreases 64 - i,
        {
            let x = 2 * rng.next_unit() - SCALE;
            let y = 2 * rng.next_unit() - SCALE;
            let z = 2 * rng.next_unit() - SCALE;
            let p = Vec3 { x, y, z };
            if p.squared_length() < SCALE {
                return p;
            }
            i = i + 1;
        }
        Vec3::zero()
    }
}

} // verus!
