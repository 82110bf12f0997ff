//! Hit records and the intersection contract every primitive implements.

use vstd::prelude::*;
use crate::interval::Interval;
use crate::material::{Material, MaterialKind};
use crate::ray::Ray;
use crate::vec3::{Vec3, Point3, in_sat};

verus! {

/// The result of a ray-object intersection: the point reached, the surface
/// normal (oriented against the ray once `set_normal` has run), the ray
/// parameter, which side was struck, and the struck object's material.
#[derive(Clone, Copy, PartialEq, Eq, Structural, Debug)]
pub struct HitRecord {
    pub p: Point3,
    pub normal: Vec3,
    pub t: i64,
    pub front_face: bool,
    pub material: MaterialKind,
}

impl HitRecord {
    pub fn new(p: Point3, normal: Vec3, t: i64, material: MaterialKind) -> (r: HitRecord)
        ensures
            r == (HitRecord { p, normal, t, front_face: true, material }),
    {
        HitRecord { p, normal, t, front_face: true, material }
    }

    /// Orient the normal against the incoming ray: the record is a front
    /// face exactly when the stored normal already opposes the ray, and
    /// otherwise the normal is flipped.  Afterward the normal's inner
    /// product with the ray direction is never positive.
    pub fn set_normal(&mut self, ray: &Ray)
        requires
            in_sat(old(self).normal),
        ensures
            final(self).front_face == (Vec3::spec_dot(old(self).normal, ray.direction) < 0),
            final(self).normal == (if Vec3::spec_dot(old(self).normal, ray.direction) < 0 {
                old(self).normal
            } else {
                Vec3::spec_neg(old(self).normal)
            }),
            final(self).p == old(self).p,
            final(self).t == old(self).t,
            final(self).material == old(self).material,
            Vec3::spec_dot(final(self).normal, ray.direction) <= 0,
    {
        let d = Vec3::dot(self.normal, ray.direction);
        self.front_face = d < 0;
        if !self.front_face {
            proof {
                crate::vec3::lemma_dot_neg_left(self.normal, ray.direction);
            }
            self.normal = self.normal.neg();
        }
    }
}

/// The intersection contract: `hit` returns exactly what the implementor's
/// `hit_spec` says, the returned parameter lies strictly inside the query
/// interval, the returned normal opposes the ray, and a well-formed object
/// hands out a well-formed material.
pub trait Hittable {
    spec fn wf(&self) -> bool;

    spec fn hit_spec(&self, ray: Ray, ray_t: Interval) -> Option<HitRecord>;

    fn hit(&self, ray: &Ray, ray_t: Interval) -> (res: Option<HitRecord>)
        ensures
            res == self.hit_spec(*ray, ray_t),
            res matches Some(rec) ==> Vec3::spec_dot(rec.normal, ray.direction) <= 0,
            res matches Some(rec) ==> ray_t.min < rec.t < ray_t.max,
            self.wf() ==> (res matches Some(rec) ==> rec.material.wf()),
    ;
}

} // verus!
