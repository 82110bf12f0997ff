//! Spheres, the sole primitive, intersected by the half-b quadratic.

use vstd::prelude::*;
use crate::fx;
use crate::hittable::{HitRecord, Hittable};
use crate::interval::Interval;
use crate::material::{Material, MaterialKind};
use crate::ray::Ray;
use crate::vec3::{Vec3, Point3};

verus! {

pub struct Sphere {
    pub center: Point3,
    pub radius: i64,
    pub material: MaterialKind,
}

impl Sphere {
    pub fn new(center: Point3, radius: i64, mat: MaterialKind) -> (r: Sphere)
        ensures
            r.center == center,
            r.radius == radius,
            r.material == mat,
    {
        Sphere { center, radius, material: mat }
    }
}

impl Hittable for Sphere {
    open spec fn wf(&self) -> bool {
        self.material.wf()
    }

    /// The quadratic in half-b form: `a = |d|^2`, `h = d . (c - o)`,
    /// `c = |c - o|^2 - r^2`, discriminant `h^2 - a c`.  No intersection
    /// when the discriminant is negative, and none for a ray or sphere too
    /// degenerate to divide by (direction of squared length zero, radius
    /// zero).  The nearer root is taken when it lies strictly inside the
    /// query interval, else the farther; the normal is the contact point's
    /// offset from the center over the radius, oriented against the ray.
    open spec fn hit_spec(&self, ray: Ray, ray_t: Interval) -> Option<HitRecord> {
        let oc = Vec3::spec_sub(self.center, ray.origin);
        let a = Vec3::spec_len_sq(ray.direction);
        let h = Vec3::spec_dot(ray.direction, oc);
        let c = fx::spec_sub(Vec3::spec_len_sq(oc), fx::spec_mul(self.radius, self.radius));
        let disc = fx::spec_sub(fx::spec_mul(h, h), fx::spec_mul(a, c));
        if disc < 0 || a == 0 || self.radius == 0 {
            None
        } else {
            let sqrtd = fx::spec_sqrt64(disc);
            let root1 = fx::spec_div(fx::spec_sub(h, sqrtd), a);
            let root = if ray_t.spec_surronds(root1) {
                root1
            } else {
                fx::spec_div(fx::spec_add(h, sqrtd), a)
            };
            if !ray_t.spec_surronds(root) {
                None
            } else {
                let p = ray.spec_at(root);
                let n0 = Vec3::spec_div(Vec3::spec_sub(p, self.center), self.radius);
                let front = Vec3::spec_dot(n0, ray.direction) < 0;
                Some(
                    HitRecord {
                        p,
                        normal: if front {
                            n0
                        } else {
                            Vec3::spec_neg(n0)
                        },
                        t: root,
                        front_face: front,
                        material: self.material,
                    },
                )
            }
        }
    }

    fn hit(&self, ray: &Ray, ray_t: Interval) -> (res: Option<HitRecord>) {
        let oc = self.center.sub(ray.origin);
        let a = Vec3::length_squared(ray.direction);
        let h = Vec3::dot(ray.direction, oc);
        let c = fx::fx_sub(Vec3::length_squared(oc), fx::fx_mul(self.radius, self.radius));
        let discriminant = fx::fx_sub(fx::fx_mul(h, h), fx::fx_mul(a, c));

        if discriminant < 0 || a == 0 || self.radius == 0 {
            return None;
        }

        let sqrtd = fx::fx_sqrt(discriminant);
        let mut root = fx::fx_div(fx::fx_sub(h, sqrtd), a);
        if root <= ray_t.min || ray_t.max <= root {
            root = fx::fx_div(fx::fx_add(h, sqrtd), a);
            if !ray_t.surronds(root) {
                return None;
            }
        }

        let t = root;
        let p = ray.at(t);
        let normal = p.sub(self.center).div(self.radius);

        let mut rec = HitRecord::new(p, normal, t, self.material);
        rec.set_normal(ray);
        Some(rec)
    }
}

} // verus!
