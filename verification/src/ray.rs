//! A ray: an origin and a (not necessarily normalized) direction.

use vstd::prelude::*;
use crate::vec3::{Vec3, v_add, v_scale};

verus! {

#[derive(Clone, Copy, PartialEq, Eq, Structural, Debug)]
pub struct Ray {
    pub origin: Vec3,
    pub direction: Vec3,
}

/// The point of the ray at parameter `t`: origin plus `t` times direction.
pub open spec fn ray_at(r: Ray, t: int) -> Vec3 {
    v_add(r.origin, v_scale(r.direction, t))
}

impl Ray {
    pub fn new(origin: &Vec3, direction: &Vec3) -> (res: Ray)
        ensures
            res == (Ray { origin: *origin, direction: *direction }),
    {
        Ray { origin: *origin, direction: *direction }
    }

    pub fn point_at_parameter(&self, t: i64) -> (res: Vec3)
        ensures
            res == ray_at(*self, t as int),
    {
        self.origin.add(self.direction.scale(t))
    }
}

} // verus!
