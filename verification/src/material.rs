//! Material scattering models: diffuse, fuzzy specular, and dielectric.
//!
//! `scatter` decides whether and how a ray continues after striking a
//! surface.  Each material's decision is pinned exactly by its
//! `scatter_post` predicate over the generator state it started from: the
//! dielectric consumes one draw, the diffuse and specular models one
//! sampled direction.

use vstd::prelude::*;
use crate::color::{Color, color_wf};
use crate::fx;
use crate::fx::SCALE;
use crate::hittable::HitRecord;
use crate::ray::Ray;
use crate::rng::{Rng, spec_next, spec_draw};
use crate::vec3::{Vec3, spec_unit_sample, spec_unit_sample_state};

verus! {

/// The scattering contract: the result satisfies the material's own
/// `scatter_post`, a scattered ray starts at the hit point, and a
/// well-formed material attenuates by a color in range.
pub trait Material {
    spec fn wf(&self) -> bool;

    spec fn scatter_post(
        &self,
        s0: u64,
        s1: u64,
        r_in: Ray,
        rec: HitRecord,
        res: Option<(Color, Ray)>,
    ) -> bool;

    fn scatter(&self, rng: &mut Rng, r_in: &Ray, rec: &HitRecord) -> (res: Option<(Color, Ray)>)
        requires
            self.wf(),
        ensures
            self.scatter_post(old(rng).state, final(rng).state, *r_in, *rec, res),
            res matches Some(ar) ==> ar.1.origin == rec.p,
            res matches Some(ar) ==> color_wf(ar.0),
    ;
}

#[derive(Clone, Copy, PartialEq, Eq, Structural, Debug)]
pub struct Lambertian {
    pub albedo: Color,
}

#[derive(Clone, Copy, PartialEq, Eq, Structural, Debug)]
pub struct Metal {
    pub albedo: Color,
    pub fuzz: i64,
}

#[derive(Clone, Copy, PartialEq, Eq, Structural, Debug)]
pub struct Dialectric {
    pub refraction_index: i64,
}

/// The diffuse direction: the normal perturbed by a sampled direction,
/// falling back to the bare normal when the sum cancels to zero.
pub open spec fn spec_lambertian_dir(normal: Vec3, u: Vec3) -> Vec3 {
    let sum = Vec3::spec_add(normal, u);
    if Vec3::spec_near_zero(sum) {
        normal
    } else {
        sum
    }
}

/// The fuzzed specular direction: the normalized mirror reflection plus
/// `fuzz` times a sampled direction.
pub open spec fn spec_metal_dir(fuzz: i64, r_in: Ray, rec: HitRecord, u: Vec3) -> Vec3 {
    Vec3::spec_add(
        Vec3::spec_unit(Vec3::spec_reflect(r_in.direction, rec.normal)),
        Vec3::spec_scale(u, fuzz),
    )
}

impl Lambertian {
    pub fn new(albedo: Color) -> (r: Lambertian)
        ensures
            r.albedo == albedo,
    {
        Lambertian { albedo }
    }
}

impl Material for Lambertian {
    open spec fn wf(&self) -> bool {
        color_wf(self.albedo)
    }

    /// Always scatters: attenuation is the albedo and the direction is the
    /// normal perturbed by the direction sampled from the starting state.
    open spec fn scatter_post(
        &self,
        s0: u64,
        s1: u64,
        r_in: Ray,
        rec: HitRecord,
        res: Option<(Color, Ray)>,
    ) -> bool {
        let u = spec_unit_sample(s0, 63);
        &&& s1 == spec_unit_sample_state(s0, 63)
        &&& res == Some(
            (self.albedo, Ray { origin: rec.p, direction: spec_lambertian_dir(rec.normal, u) }),
        )
    }

    fn scatter(&self, rng: &mut Rng, r_in: &Ray, rec: &HitRecord) -> (res: Option<(Color, Ray)>) {
        let u = Vec3::random_unit_vector(rng);
        let mut scatter_direction = rec.normal.add(u);
        if scatter_direction.near_zero() {
            scatter_direction = rec.normal;
        }
        let scattered = Ray::new(rec.p, scatter_direction);
        let attenuation = self.albedo;
        Some((attenuation, scattered))
    }
}

impl Metal {
    /// The fuzz factor is clamped into `[0, 1]`.
    pub fn new(albedo: Color, fuzz: i64) -> (r: Metal)
        ensures
            r.albedo == albedo,
            r.fuzz == fx::spec_clamp(fuzz, 0, SCALE),
            0 <= r.fuzz <= SCALE,
    {
        Metal { albedo, fuzz: fx::fx_clamp(fuzz, 0, SCALE) }
    }
}

impl Material for Metal {
    open spec fn wf(&self) -> bool {
        color_wf(self.albedo)
    }

    /// The reflection fuzzed by the direction sampled from the starting
    /// state is returned when it leaves the surface, and the ray is
    /// absorbed when it grazes into it.
    open spec fn scatter_post(
        &self,
        s0: u64,
        s1: u64,
        r_in: Ray,
        rec: HitRecord,
        res: Option<(Color, Ray)>,
    ) -> bool {
        let dir = spec_metal_dir(self.fuzz, r_in, rec, spec_unit_sample(s0, 63));
        &&& s1 == spec_unit_sample_state(s0, 63)
        &&& (if Vec3::spec_dot(dir, rec.normal) > 0 {
            res == Some((self.albedo, Ray { origin: rec.p, direction: dir }))
        } else {
            res is None
        })
    }

    fn scatter(&self, rng: &mut Rng, r_in: &Ray, rec: &HitRecord) -> (res: Option<(Color, Ray)>) {
        let reflected = Vec3::reflect(r_in.direction, rec.normal);
        let u = Vec3::random_unit_vector(rng);
        let fuzzed = Vec3::unit_vector(reflected).add(u.scale(self.fuzz));
        let scattered = Ray::new(rec.p, fuzzed);
        let attenuation = self.albedo;
        if Vec3::dot(scattered.direction, rec.normal) > 0 {
            Some((attenuation, scattered))
        } else {
            None
        }
    }
}

impl Dialectric {
    pub fn new(refraction_index: i64) -> (r: Dialectric)
        ensures
            r.refraction_index == refraction_index,
    {
        Dialectric { refraction_index }
    }

    /// The reflectance at normal incidence: `((1 - n) / (1 + n))^2`.
    pub open spec fn spec_r0(refraction_index: i64) -> i64 {
        let r0 = fx::spec_div(
            fx::spec_sub(SCALE, refraction_index),
            fx::spec_add(SCALE, refraction_index),
        );
        fx::spec_mul(r0, r0)
    }

    /// Schlick's reflectance approximation:
    /// `r0 + (1 - r0) (1 - cos)^5` with `r0 = ((1 - n) / (1 + n))^2`.
    pub open spec fn spec_reflectance(cosine: i64, refraction_index: i64) -> i64 {
        let r0s = Dialectric::spec_r0(refraction_index);
        fx::spec_add(r0s, fx::spec_mul(fx::spec_sub(SCALE, r0s), spec_pow5(fx::spec_sub(SCALE, cosine))))
    }

    pub fn reflactance(cosine: i64, refraction_index: i64) -> (r: i64)
        requires
            refraction_index != -SCALE,
        ensures
            r == Dialectric::spec_reflectance(cosine, refraction_index),
    {
        let mut r0 = fx::fx_div(
            fx::fx_sub(SCALE, refraction_index),
            fx::fx_add(SCALE, refraction_index),
        );
        r0 = fx::fx_mul(r0, r0);
        fx::fx_add(r0, fx::fx_mul(fx::fx_sub(SCALE, r0), pow5(fx::fx_sub(SCALE, cosine))))
    }

    /// The scattered direction for a given reflect-or-refract draw `d`:
    /// total internal reflection forces a mirror reflection; otherwise the
    /// Schlick reflectance is compared against the draw.
    pub open spec fn spec_dir(index: i64, r_in: Ray, rec: HitRecord, d: i64) -> Vec3 {
        let ri = if rec.front_face {
            fx::spec_div(SCALE, index)
        } else {
            index
        };
        let unit_direction = Vec3::spec_unit(r_in.direction);
        let cos_theta = fx::spec_min(
            Vec3::spec_dot(Vec3::spec_neg(unit_direction), rec.normal),
            SCALE,
        );
        let sin_theta = fx::spec_sqrt64(
            fx::spec_abs(fx::spec_sub(SCALE, fx::spec_mul(cos_theta, cos_theta))),
        );
        if fx::spec_mul(ri, sin_theta) > SCALE || Dialectric::spec_reflectance(cos_theta, ri) > d {
            Vec3::spec_reflect(unit_direction, rec.normal)
        } else {
            Vec3::spec_refract(unit_direction, rec.normal, ri)
        }
    }
}

impl Material for Dialectric {
    open spec fn wf(&self) -> bool {
        self.refraction_index > 0
    }

    /// Always scatters with white attenuation; the direction is determined
    /// by the generator's first draw.
    open spec fn scatter_post(
        &self,
        s0: u64,
        s1: u64,
        r_in: Ray,
        rec: HitRecord,
        res: Option<(Color, Ray)>,
    ) -> bool {
        &&& s1 == spec_next(s0)
        &&& res == Some(
            (
                Vec3 { x: SCALE, y: SCALE, z: SCALE },
                Ray {
                    origin: rec.p,
                    direction: Dialectric::spec_dir(self.refraction_index, r_in, rec, spec_draw(s0)),
                },
            ),
        )
    }

    fn scatter(&self, rng: &mut Rng, r_in: &Ray, rec: &HitRecord) -> (res: Option<(Color, Ray)>) {
        let attenuation = Vec3::new(SCALE, SCALE, SCALE);
        let ri = if rec.front_face {
            fx::fx_div(SCALE, self.refraction_index)
        } else {
            self.refraction_index
        };
        proof {
            if rec.front_face {
                vstd::arithmetic::div_mod::lemma_div_pos_is_pos(
                    (SCALE as int) * (SCALE as int),
                    self.refraction_index as int,
                );
            }
        }
        let unit_direction = Vec3::unit_vector(r_in.direction);
        let cos_theta = fx::fx_min(Vec3::dot(unit_direction.neg(), rec.normal), SCALE);
        let sin_theta = fx::fx_sqrt(fx::fx_abs(fx::fx_sub(SCALE, fx::fx_mul(cos_theta, cos_theta))));
        let cannot_refract = fx::fx_mul(ri, sin_theta) > SCALE;
        let refl = Dialectric::reflactance(cos_theta, ri);
        let d = rng.random_fx();
        let direction = if cannot_refract || refl > d {
            Vec3::reflect(unit_direction, rec.normal)
        } else {
            Vec3::refract(unit_direction, rec.normal, ri)
        };
        let scattered = Ray::new(rec.p, direction);
        Some((attenuation, scattered))
    }
}

/// The fifth power of a fixed-point scalar, by three products.
pub open spec fn spec_pow5(x: i64) -> i64 {
    let x2 = fx::spec_mul(x, x);
    let x4 = fx::spec_mul(x2, x2);
    fx::spec_mul(x4, x)
}

fn pow5(x: i64) -> (r: i64)
    ensures
        r == spec_pow5(x),
{
    let x2 = fx::fx_mul(x, x);
    let x4 = fx::fx_mul(x2, x2);
    fx::fx_mul(x4, x)
}

/// The closed set of materials a scene object can own; scattering and
/// well-formedness dispatch to the held material.
#[derive(Clone, Copy, PartialEq, Eq, Structural, Debug)]
pub enum MaterialKind {
    Lambertian(Lambertian),
    Metal(Metal),
    Dialectric(Dialectric),
}

impl Material for MaterialKind {
    open spec fn wf(&self) -> bool {
        match *self {
            MaterialKind::Lambertian(m) => m.wf(),
            MaterialKind::Metal(m) => m.wf(),
            MaterialKind::Dialectric(m) => m.wf(),
        }
    }

    open spec fn scatter_post(
        &self,
        s0: u64,
        s1: u64,
        r_in: Ray,
        rec: HitRecord,
        res: Option<(Color, Ray)>,
    ) -> bool {
        match *self {
            MaterialKind::Lambertian(m) => m.scatter_post(s0, s1, r_in, rec, res),
            MaterialKind::Metal(m) => m.scatter_post(s0, s1, r_in, rec, res),
            MaterialKind::Dialectric(m) => m.scatter_post(s0, s1, r_in, rec, res),
        }
    }

    fn scatter(&self, rng: &mut Rng, r_in: &Ray, rec: &HitRecord) -> (res: Option<(Color, Ray)>) {
        match self {
            MaterialKind::Lambertian(m) => m.scatter(rng, r_in, rec),
            MaterialKind::Metal(m) => m.scatter(rng, r_in, rec),
            MaterialKind::Dialectric(m) => m.scatter(rng, r_in, rec),
        }
    }
}

/// A polished metal (fuzz zero) reflects deterministically: whatever
/// direction was sampled, the scattered direction is exactly the mirror
/// reflection of the incoming direction (normalized), and the ray scatters
/// exactly when that reflection leaves the surface.
pub proof fn lemma_metal_mirror(
    m: Metal,
    s0: u64,
    s1: u64,
    r_in: Ray,
    rec: HitRecord,
    res: Option<(Color, Ray)>,
)
    requires
        m.fuzz == 0,
        m.scatter_post(s0, s1, r_in, rec, res),
    ensures
        res matches Some(ar) ==> ar.1.direction == Vec3::spec_unit(
            Vec3::spec_reflect(r_in.direction, rec.normal),
        ),
        res matches Some(ar) ==> ar.0 == m.albedo && ar.1.origin == rec.p,
        res is Some <==> Vec3::spec_dot(
            Vec3::spec_unit(Vec3::spec_reflect(r_in.direction, rec.normal)),
            rec.normal,
        ) > 0,
{
    let u = spec_unit_sample(s0, 63);
    fx::lemma_mul_zero(u.x);
    fx::lemma_mul_zero(u.y);
    fx::lemma_mul_zero(u.z);
    assert(spec_metal_dir(0, r_in, rec, u) == Vec3::spec_unit(
        Vec3::spec_reflect(r_in.direction, rec.normal),
    ));
}

/// At normal incidence (cosine one) the Schlick reflectance is exactly the
/// base reflectance `r0`: the fifth-power term vanishes.
pub proof fn lemma_reflectance_normal_incidence(refraction_index: i64)
    ensures
        Dialectric::spec_reflectance(SCALE, refraction_index) == Dialectric::spec_r0(
            refraction_index,
        ),
        Dialectric::spec_r0(refraction_index) >= 0,
{
    fx::lemma_mul_zero(0);
    fx::lemma_mul_zero(fx::spec_sub(SCALE, Dialectric::spec_r0(refraction_index)));
    fx::lemma_mul_square_nonneg(
        fx::spec_div(
            fx::spec_sub(SCALE, refraction_index),
            fx::spec_add(SCALE, refraction_index),
        ),
    );
}

} // verus!
