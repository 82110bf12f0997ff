//! Rays: an origin and an unnormalized direction.

use vstd::prelude::*;
use crate::vec3::{Vec3, Point3, in_sat};

verus! {

#[derive(Clone, Copy, PartialEq, Eq, Structural, Debug)]
pub struct Ray {
    pub origin: Point3,
    pub direction: Vec3,
}

impl Ray {
    pub open spec fn spec_new(origin: Point3, direction: Vec3) -> Ray {
        Ray { origin, direction }
    }

    /// The point reached after parameter `t`: `origin + t * direction`.
    pub open spec fn spec_at(self, t: i64) -> Point3 {
        Vec3::spec_add(self.origin, Vec3::spec_scale(self.direction, t))
    }

    pub fn new(origin: Point3, direction: Vec3) -> (r: Ray)
        ensures
            r == Ray::spec_new(origin, direction),
    {
        Ray { origin, direction }
    }

    pub fn at(&self, t: i64) -> (r: Point3)
        ensures
            r == self.spec_at(t),
            in_sat(r),
    {
        self.origin.add(self.direction.scale(t))
    }
}

} // verus!
