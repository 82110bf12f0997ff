//! The scene aggregate: a list of spheres queried for the closest hit.

use vstd::prelude::*;
use crate::hittable::{HitRecord, Hittable};
use crate::interval::Interval;
use crate::material::Material;
use crate::ray::Ray;
use crate::sphere::Sphere;
use crate::vec3::Vec3;

verus! {

pub struct HittableList {
    pub objects: Vec<Sphere>,
}

/// The closest qualifying hit over a sequence of spheres: each object is
/// queried with the upper bound shrunk to the best parameter found so far,
/// so the final record is the nearest.
pub open spec fn hit_seq(objs: Seq<Sphere>, ray: Ray, ray_t: Interval) -> Option<HitRecord>
    decreases objs.len(),
{
    if objs.len() == 0 {
        None
    } else {
        match objs[0].hit_spec(ray, ray_t) {
            Option::None => hit_seq(objs.skip(1), ray, ray_t),
            Option::Some(rec) => match hit_seq(
                objs.skip(1),
                ray,
                Interval { min: ray_t.min, max: rec.t },
            ) {
                Option::Some(r2) => Option::Some(r2),
                Option::None => Option::Some(rec),
            },
        }
    }
}

impl HittableList {
    pub fn new() -> (r: HittableList)
        ensures
            r.objects@ == Seq::<Sphere>::empty(),
    {
        HittableList { objects: Vec::new() }
    }

    pub fn add(&mut self, object: Sphere)
        ensures
            final(self).objects@ == old(self).objects@.push(object),
    {
        self.objects.push(object);
    }
}

impl Hittable for HittableList {
    open spec fn wf(&self) -> bool {
        forall|k: int| 0 <= k < self.objects@.len() ==> #[trigger] self.objects@[k].wf()
    }

    open spec fn hit_spec(&self, ray: Ray, ray_t: Interval) -> Option<HitRecord> {
        hit_seq(self.objects@, ray, ray_t)
    }

    fn hit(&self, ray: &Ray, ray_t: Interval) -> (res: Option<HitRecord>) {
        let mut rec: Option<HitRecord> = None;
        let mut closest_so_far = ray_t.max;
        let mut i: usize = 0;
        let n = self.objects.len();
        proof {
            assert(self.objects@.skip(0) =~= self.objects@);
        }
        while i < n
            invariant
                n == self.objects@.len(),
                i <= n,
                hit_seq(self.objects@, *ray, ray_t) == (match rec {
                    Option::None => hit_seq(self.objects@.skip(i as int), *ray, ray_t),
                    Option::Some(r) => match hit_seq(
                        self.objects@.skip(i as int),
                        *ray,
                        Interval { min: ray_t.min, max: r.t },
                    ) {
                        Option::Some(r2) => Option::Some(r2),
                        Option::None => Option::Some(r),
                    },
                }),
                closest_so_far == (match rec {
                    Option::None => ray_t.max,
                    Option::Some(r) => r.t,
                }),
                rec matches Some(r) ==> ray_t.min < r.t < ray_t.max,
                rec matches Some(r) ==> Vec3::spec_dot(r.normal, ray.direction) <= 0,
                self.wf() ==> (rec matches Some(r) ==> r.material.wf()),
            decreases n - i,
        {
            let obj = &self.objects[i];
            let hr = obj.hit(ray, Interval::new(ray_t.min, closest_so_far));
            proof {
                assert(self.objects@.skip(i as int).skip(1) =~= self.objects@.skip(i as int + 1));
                assert(self.objects@.skip(i as int)[0] == self.objects@[i as int]);
            }
            match hr {
                Option::Some(h) => {
                    closest_so_far = h.t;
                    rec = Option::Some(h);
                },
                Option::None => {},
            }
            i = i + 1;
        }
        rec
    }
}

} // verus!
