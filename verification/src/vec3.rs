//! Three-component vectors and points over fixed-point scalars.
//!
//! Every operation has a spec mirror (`spec_add`, `spec_dot`, ...) built from
//! the scalar model in `fx`, and each executable method returns exactly its
//! mirror's value.

use vstd::prelude::*;
use crate::fx;
use crate::fx::{SCALE, FX_MAX, sqrt_val};
use crate::rng::{Rng, spec_next, spec_next3, spec_draw, spec_range_draw};

verus! {

#[derive(Clone, Copy, PartialEq, Eq, Structural, Debug)]
pub struct Vec3 {
    pub x: i64,
    pub y: i64,
    pub z: i64,
}

pub type Point3 = Vec3;

/// Components below this magnitude count as zero; one quantum is the
/// smallest representable magnitude, so this means exactly zero.
pub const NEAR_EPS: i64 = 1;

/// All components away from `i64::MIN`, so negation is exact.  Every value
/// produced by the saturating scalar operations satisfies this.
pub open spec fn in_sat(v: Vec3) -> bool {
    -FX_MAX <= v.x && -FX_MAX <= v.y && -FX_MAX <= v.z
}

/// What a sampled direction is: some accepted point of the unit ball —
/// squared length in the band `(1/4, 1]`, components within the unit
/// scale — divided by its own length.  The fixed axis fallback satisfies
/// this too: it is its own normalization.
pub open spec fn normalized_sample(r: Vec3) -> bool {
    exists|p: Vec3|
        {
            &&& UNIT_LOW < #[trigger] Vec3::spec_len_sq(p) <= SCALE
            &&& -SCALE <= p.x <= SCALE
            &&& -SCALE <= p.y <= SCALE
            &&& -SCALE <= p.z <= SCALE
            &&& r == Vec3::spec_div(p, Vec3::spec_length(p))
        }
}

/// All components within twice the unit scale: a coarse box every sampled
/// direction lies in.
pub open spec fn unit_scale(v: Vec3) -> bool {
    -2 * SCALE <= v.x <= 2 * SCALE && -2 * SCALE <= v.y <= 2 * SCALE && -2 * SCALE <= v.z <= 2
        * SCALE
}

/// One candidate direction: a point of the cube `[-1, 1]^3`, three range
/// draws from state `s`.
#[verifier::opaque]
pub open spec fn spec_cube_sample(s: u64) -> Vec3 {
    Vec3 {
        x: spec_range_draw(s, (-65536) as i64, SCALE),
        y: spec_range_draw(spec_next(s), (-65536) as i64, SCALE),
        z: spec_range_draw(spec_next(spec_next(s)), (-65536) as i64, SCALE),
    }
}

/// The direction the sampler returns from state `s` with `n` more attempts
/// allowed: the first accepted cube point normalized, or the fixed axis
/// when every attempt is rejected.
#[verifier::opaque]
pub open spec fn spec_unit_sample(s: u64, n: nat) -> Vec3
    decreases n,
{
    let p = spec_cube_sample(s);
    let lensq = Vec3::spec_len_sq(p);
    if UNIT_LOW < lensq <= SCALE {
        Vec3::spec_div(p, Vec3::spec_length(p))
    } else if n == 0 {
        Vec3 { x: SCALE, y: 0, z: 0 }
    } else {
        spec_unit_sample(spec_next3(s), (n - 1) as nat)
    }
}

/// The generator state left behind by the sampler.
#[verifier::opaque]
pub open spec fn spec_unit_sample_state(s: u64, n: nat) -> u64
    decreases n,
{
    let p = spec_cube_sample(s);
    let lensq = Vec3::spec_len_sq(p);
    if UNIT_LOW < lensq <= SCALE || n == 0 {
        spec_next3(s)
    } else {
        spec_unit_sample_state(spec_next3(s), (n - 1) as nat)
    }
}

/// A vector of the three range draws from `s` is the cube sample of `s`.
proof fn lemma_cube_sample_parts(s: u64, v: Vec3)
    requires
        v.x == spec_range_draw(s, (-65536) as i64, SCALE),
        v.y == spec_range_draw(spec_next(s), (-65536) as i64, SCALE),
        v.z == spec_range_draw(spec_next(spec_next(s)), (-65536) as i64, SCALE),
    ensures
        v == spec_cube_sample(s),
{
    reveal(spec_cube_sample);
}

/// One step of the sampler with attempts to spare: accept and normalize,
/// or move to the next state.
proof fn lemma_unit_sample_step(s: u64, n: nat)
    requires
        n > 0,
    ensures
        ({
            let p = spec_cube_sample(s);
            let lensq = Vec3::spec_len_sq(p);
            &&& (UNIT_LOW < lensq <= SCALE ==> spec_unit_sample(s, n) == Vec3::spec_div(
                p,
                Vec3::spec_length(p),
            ) && spec_unit_sample_state(s, n) == spec_next3(s))
            &&& (!(UNIT_LOW < lensq <= SCALE) ==> spec_unit_sample(s, n) == spec_unit_sample(
                spec_next3(s),
                (n - 1) as nat,
            ) && spec_unit_sample_state(s, n) == spec_unit_sample_state(
                spec_next3(s),
                (n - 1) as nat,
            ))
        }),
{
    reveal_with_fuel(spec_unit_sample, 1);
    reveal_with_fuel(spec_unit_sample_state, 1);
}

/// The last step of the sampler: accept and normalize, or fall back to
/// the fixed axis.
proof fn lemma_unit_sample_last(s: u64)
    ensures
        ({
            let p = spec_cube_sample(s);
            let lensq = Vec3::spec_len_sq(p);
            &&& (UNIT_LOW < lensq <= SCALE ==> spec_unit_sample(s, 0) == Vec3::spec_div(
                p,
                Vec3::spec_length(p),
            ))
            &&& (!(UNIT_LOW < lensq <= SCALE) ==> spec_unit_sample(s, 0) == (Vec3 {
                x: SCALE,
                y: 0,
                z: 0,
            }))
            &&& spec_unit_sample_state(s, 0) == spec_next3(s)
        }),
{
    reveal_with_fuel(spec_unit_sample, 1);
    reveal_with_fuel(spec_unit_sample_state, 1);
}

/// The disk point the sampler returns from state `s` with `n` more
/// attempts allowed: the first point of the square `[-1, 1]^2` that falls
/// strictly inside the unit disk, or the center when every attempt is
/// rejected.
#[verifier::opaque]
pub open spec fn spec_disk_sample(s: u64, n: nat) -> Vec3
    decreases n,
{
    let p = Vec3 {
        x: spec_range_draw(s, (-65536) as i64, SCALE),
        y: spec_range_draw(spec_next(s), (-65536) as i64, SCALE),
        z: 0,
    };
    if Vec3::spec_len_sq(p) < SCALE {
        p
    } else if n == 0 {
        Vec3 { x: 0, y: 0, z: 0 }
    } else {
        spec_disk_sample(spec_next(spec_next(s)), (n - 1) as nat)
    }
}

/// The generator state left behind by the disk sampler.
#[verifier::opaque]
pub open spec fn spec_disk_sample_state(s: u64, n: nat) -> u64
    decreases n,
{
    let p = Vec3 {
        x: spec_range_draw(s, (-65536) as i64, SCALE),
        y: spec_range_draw(spec_next(s), (-65536) as i64, SCALE),
        z: 0,
    };
    if Vec3::spec_len_sq(p) < SCALE || n == 0 {
        spec_next(spec_next(s))
    } else {
        spec_disk_sample_state(spec_next(spec_next(s)), (n - 1) as nat)
    }
}

/// One step of the disk sampler with attempts to spare.
proof fn lemma_disk_sample_step(s: u64, n: nat)
    requires
        n > 0,
    ensures
        ({
            let p = Vec3 {
                x: spec_range_draw(s, (-65536) as i64, SCALE),
                y: spec_range_draw(spec_next(s), (-65536) as i64, SCALE),
                z: 0,
            };
            &&& (Vec3::spec_len_sq(p) < SCALE ==> spec_disk_sample(s, n) == p
                && spec_disk_sample_state(s, n) == spec_next(spec_next(s)))
            &&& (Vec3::spec_len_sq(p) >= SCALE ==> spec_disk_sample(s, n) == spec_disk_sample(
                spec_next(spec_next(s)),
                (n - 1) as nat,
            ) && spec_disk_sample_state(s, n) == spec_disk_sample_state(
                spec_next(spec_next(s)),
                (n - 1) as nat,
            ))
        }),
{
    reveal_with_fuel(spec_disk_sample, 1);
    reveal_with_fuel(spec_disk_sample_state, 1);
}

/// The last step of the disk sampler: accept, or fall back to the center.
proof fn lemma_disk_sample_last(s: u64)
    ensures
        ({
            let p = Vec3 {
                x: spec_range_draw(s, (-65536) as i64, SCALE),
                y: spec_range_draw(spec_next(s), (-65536) as i64, SCALE),
                z: 0,
            };
            &&& (Vec3::spec_len_sq(p) < SCALE ==> spec_disk_sample(s, 0) == p)
            &&& (Vec3::spec_len_sq(p) >= SCALE ==> spec_disk_sample(s, 0) == (Vec3 {
                x: 0,
                y: 0,
                z: 0,
            }))
            &&& spec_disk_sample_state(s, 0) == spec_next(spec_next(s))
        }),
{
    reveal_with_fuel(spec_disk_sample, 1);
    reveal_with_fuel(spec_disk_sample_state, 1);
}

/// Lower cutoff on the squared length accepted when sampling a direction
/// to normalize: a quarter of the unit scale, so the division that follows
/// cannot blow up on a sample too close to the origin.
pub const UNIT_LOW: i64 = 16384;

impl Vec3 {
    pub open spec fn spec_new(x: i64, y: i64, z: i64) -> Vec3 {
        Vec3 { x, y, z }
    }

    pub open spec fn spec_add(u: Vec3, v: Vec3) -> Vec3 {
        Vec3 { x: fx::spec_add(u.x, v.x), y: fx::spec_add(u.y, v.y), z: fx::spec_add(u.z, v.z) }
    }

    pub open spec fn spec_sub(u: Vec3, v: Vec3) -> Vec3 {
        Vec3 { x: fx::spec_sub(u.x, v.x), y: fx::spec_sub(u.y, v.y), z: fx::spec_sub(u.z, v.z) }
    }

    pub open spec fn spec_neg(v: Vec3) -> Vec3 {
        Vec3 { x: fx::spec_neg(v.x), y: fx::spec_neg(v.y), z: fx::spec_neg(v.z) }
    }

    /// Component-wise product (used for albedo tinting).
    pub open spec fn spec_mul(u: Vec3, v: Vec3) -> Vec3 {
        Vec3 { x: fx::spec_mul(u.x, v.x), y: fx::spec_mul(u.y, v.y), z: fx::spec_mul(u.z, v.z) }
    }

    /// Scalar product `t * v`.
    pub open spec fn spec_scale(v: Vec3, t: i64) -> Vec3 {
        Vec3 { x: fx::spec_mul(t, v.x), y: fx::spec_mul(t, v.y), z: fx::spec_mul(t, v.z) }
    }

    /// Scalar quotient `v / t`.
    pub open spec fn spec_div(v: Vec3, t: i64) -> Vec3 {
        Vec3 { x: fx::spec_div(v.x, t), y: fx::spec_div(v.y, t), z: fx::spec_div(v.z, t) }
    }

    pub open spec fn spec_dot(u: Vec3, v: Vec3) -> i64 {
        fx::spec_add(
            fx::spec_add(fx::spec_mul(u.x, v.x), fx::spec_mul(u.y, v.y)),
            fx::spec_mul(u.z, v.z),
        )
    }

    pub open spec fn spec_cross(u: Vec3, v: Vec3) -> Vec3 {
        Vec3 {
            x: fx::spec_sub(fx::spec_mul(u.y, v.z), fx::spec_mul(u.z, v.y)),
            y: fx::spec_sub(fx::spec_mul(u.z, v.x), fx::spec_mul(u.x, v.z)),
            z: fx::spec_sub(fx::spec_mul(u.x, v.y), fx::spec_mul(u.y, v.x)),
        }
    }

    pub open spec fn spec_len_sq(v: Vec3) -> i64 {
        Vec3::spec_dot(v, v)
    }

    pub open spec fn spec_length(v: Vec3) -> i64 {
        fx::spec_sqrt64(Vec3::spec_len_sq(v))
    }

    /// `v / |v|`; the vector itself when its length rounds to zero, so the
    /// operation is total instead of dividing by zero.
    pub open spec fn spec_unit(v: Vec3) -> Vec3 {
        if Vec3::spec_length(v) == 0 {
            v
        } else {
            Vec3::spec_div(v, Vec3::spec_length(v))
        }
    }

    pub open spec fn spec_near_zero(v: Vec3) -> bool {
        fx::mag(v.x as int) < NEAR_EPS && fx::mag(v.y as int) < NEAR_EPS && fx::mag(v.z as int)
            < NEAR_EPS
    }

    /// Mirror reflection `v - 2 (v . n) n`.
    pub open spec fn spec_reflect(v: Vec3, n: Vec3) -> Vec3 {
        let d = Vec3::spec_dot(v, n);
        Vec3::spec_sub(v, Vec3::spec_scale(n, fx::spec_add(d, d)))
    }

    /// Snell refraction split into components perpendicular and parallel to
    /// the normal, with the cosine clamped at one.
    pub open spec fn spec_refract(uv: Vec3, n: Vec3, etai_over_etat: i64) -> Vec3 {
        let cos_theta = fx::spec_min(Vec3::spec_dot(Vec3::spec_neg(uv), n), SCALE);
        let r_out_perp = Vec3::spec_scale(
            Vec3::spec_add(uv, Vec3::spec_scale(n, cos_theta)),
            etai_over_etat,
        );
        let k = fx::spec_sub(SCALE, Vec3::spec_len_sq(r_out_perp));
        let s = fx::spec_sqrt64(fx::spec_abs(k));
        Vec3::spec_add(r_out_perp, Vec3::spec_scale(n, fx::spec_neg(s)))
    }

    pub fn new(x: i64, y: i64, z: i64) -> (r: Vec3)
        ensures
            r == Vec3::spec_new(x, y, z),
    {
        Vec3 { x, y, z }
    }

    pub fn zero() -> (r: Vec3)
        ensures
            r == Vec3::spec_new(0, 0, 0),
    {
        Vec3 { x: 0, y: 0, z: 0 }
    }

    pub fn add(self, v: Vec3) -> (r: Vec3)
        ensures
            r == Vec3::spec_add(self, v),
            in_sat(r),
    {
        Vec3 { x: fx::fx_add(self.x, v.x), y: fx::fx_add(self.y, v.y), z: fx::fx_add(self.z, v.z) }
    }

    pub fn sub(self, v: Vec3) -> (r: Vec3)
        ensures
            r == Vec3::spec_sub(self, v),
            in_sat(r),
    {
        Vec3 { x: fx::fx_sub(self.x, v.x), y: fx::fx_sub(self.y, v.y), z: fx::fx_sub(self.z, v.z) }
    }

    pub fn neg(self) -> (r: Vec3)
        ensures
            r == Vec3::spec_neg(self),
            in_sat(r),
    {
        Vec3 { x: fx::fx_neg(self.x), y: fx::fx_neg(self.y), z: fx::fx_neg(self.z) }
    }

    /// Component-wise product.
    pub fn mul(self, v: Vec3) -> (r: Vec3)
        ensures
            r == Vec3::spec_mul(self, v),
            in_sat(r),
    {
        Vec3 { x: fx::fx_mul(self.x, v.x), y: fx::fx_mul(self.y, v.y), z: fx::fx_mul(self.z, v.z) }
    }

    /// Scalar product `t * self`.
    pub fn scale(self, t: i64) -> (r: Vec3)
        ensures
            r == Vec3::spec_scale(self, t),
            in_sat(r),
    {
        Vec3 { x: fx::fx_mul(t, self.x), y: fx::fx_mul(t, self.y), z: fx::fx_mul(t, self.z) }
    }

    /// Scalar quotient `self / t`.
    pub fn div(self, t: i64) -> (r: Vec3)
        requires
            t != 0,
        ensures
            r == Vec3::spec_div(self, t),
            in_sat(r),
    {
        Vec3 { x: fx::fx_div(self.x, t), y: fx::fx_div(self.y, t), z: fx::fx_div(self.z, t) }
    }

    pub fn dot(u: Vec3, v: Vec3) -> (r: i64)
        ensures
            r == Vec3::spec_dot(u, v),
    {
        let t1 = fx::fx_mul(u.x, v.x);
        let t2 = fx::fx_mul(u.y, v.y);
        let t3 = fx::fx_mul(u.z, v.z);
        fx::fx_add(fx::fx_add(t1, t2), t3)
    }

    pub fn cross(u: Vec3, v: Vec3) -> (r: Vec3)
        ensures
            r == Vec3::spec_cross(u, v),
            in_sat(r),
    {
        Vec3::new(
            fx::fx_sub(fx::fx_mul(u.y, v.z), fx::fx_mul(u.z, v.y)),
            fx::fx_sub(fx::fx_mul(u.z, v.x), fx::fx_mul(u.x, v.z)),
            fx::fx_sub(fx::fx_mul(u.x, v.y), fx::fx_mul(u.y, v.x)),
        )
    }

    pub fn length_squared(v: Vec3) -> (r: i64)
        ensures
            r == Vec3::spec_len_sq(v),
            r >= 0,
    {
        proof {
            fx::lemma_mul_square_nonneg(v.x);
            fx::lemma_mul_square_nonneg(v.y);
            fx::lemma_mul_square_nonneg(v.z);
        }
        Vec3::dot(v, v)
    }

    pub fn length(v: Vec3) -> (r: i64)
        ensures
            r == Vec3::spec_length(v),
            r >= 0,
    {
        let lsq = Vec3::length_squared(v);
        fx::fx_sqrt(lsq)
    }

    pub fn unit_vector(v: Vec3) -> (r: Vec3)
        ensures
            r == Vec3::spec_unit(v),
    {
        let len = Vec3::length(v);
        if len == 0 {
            v
        } else {
            v.div(len)
        }
    }

    pub fn near_zero(&self) -> (r: bool)
        ensures
            r == Vec3::spec_near_zero(*self),
    {
        let ax = fx::fx_abs(self.x);
        let ay = fx::fx_abs(self.y);
        let az = fx::fx_abs(self.z);
        ax < NEAR_EPS && ay < NEAR_EPS && az < NEAR_EPS
    }

    pub fn reflect(v: Vec3, n: Vec3) -> (r: Vec3)
        ensures
            r == Vec3::spec_reflect(v, n),
            in_sat(r),
    {
        let d = Vec3::dot(v, n);
        v.sub(n.scale(fx::fx_add(d, d)))
    }

    /// One uniform draw per component, each in `[0, SCALE)`.
    pub fn random(rng: &mut Rng) -> (r: Vec3)
        ensures
            r.x == spec_draw(old(rng).state),
            r.y == spec_draw(spec_next(old(rng).state)),
            r.z == spec_draw(spec_next(spec_next(old(rng).state))),
            final(rng).state == spec_next(spec_next(spec_next(old(rng).state))),
            0 <= r.x < SCALE && 0 <= r.y < SCALE && 0 <= r.z < SCALE,
    {
        let x = rng.random_fx();
        let y = rng.random_fx();
        let z = rng.random_fx();
        Vec3 { x, y, z }
    }

    /// One draw per component, each mapped into `[min, max]`.
    pub fn random_range(rng: &mut Rng, min: i64, max: i64) -> (r: Vec3)
        requires
            -FX_MAX <= min <= max,
        ensures
            r.x == spec_range_draw(old(rng).state, min, max),
            r.y == spec_range_draw(spec_next(old(rng).state), min, max),
            r.z == spec_range_draw(spec_next(spec_next(old(rng).state)), min, max),
            final(rng).state == spec_next(spec_next(spec_next(old(rng).state))),
            min <= r.x <= max && min <= r.y <= max && min <= r.z <= max,
    {
        let x = rng.random_fx_range(min, max);
        let y = rng.random_fx_range(min, max);
        let z = rng.random_fx_range(min, max);
        Vec3 { x, y, z }
    }

    /// Rejection-sample a point of the unit disk in the xy-plane.  Bounded
    /// attempts with the center as fallback keep the function total.
    pub fn random_in_unit_disk(rng: &mut Rng) -> (r: Vec3)
        ensures
            r.z == 0,
            -SCALE <= r.x <= SCALE && -SCALE <= r.y <= SCALE,
            Vec3::spec_len_sq(r) < SCALE,
            r == spec_disk_sample(old(rng).state, 63),
            final(rng).state == spec_disk_sample_state(old(rng).state, 63),
    {
        Vec3::disk_sample_attempts(rng, 63)
    }

    /// One attempt of the disk sampler, recursing while attempts remain.
    #[verifier::rlimit(100)]
    fn disk_sample_attempts(rng: &mut Rng, n: u64) -> (r: Vec3)
        requires
            n <= 63,
        ensures
            r.z == 0,
            -SCALE <= r.x <= SCALE && -SCALE <= r.y <= SCALE,
            Vec3::spec_len_sq(r) < SCALE,
            r == spec_disk_sample(old(rng).state, n as nat),
            final(rng).state == spec_disk_sample_state(old(rng).state, n as nat),
        decreases n,
    {
        let ghost prev = rng.state;
        let px = rng.random_fx_range(-SCALE, SCALE);
        let py = rng.random_fx_range(-SCALE, SCALE);
        let p = Vec3 { x: px, y: py, z: 0 };
        let lensq = Vec3::length_squared(p);
        proof {
            if n > 0 {
                lemma_disk_sample_step(prev, n as nat);
            } else {
                lemma_disk_sample_last(prev);
            }
        }
        if lensq < SCALE {
            p
        } else if n == 0 {
            proof {
                fx::lemma_mul_unit_range(0, 0);
            }
            Vec3 { x: 0, y: 0, z: 0 }
        } else {
            Vec3::disk_sample_attempts(rng, n - 1)
        }
    }

    /// Rejection-sample a direction of roughly unit length: a point of the
    /// unit ball away from the center, normalized.  Bounded attempts with a
    /// fixed axis direction as fallback keep the function total, and the
    /// result and the state left behind are exact functions of the state
    /// the generator started in.
    pub fn random_unit_vector(rng: &mut Rng) -> (r: Vec3)
        ensures
            unit_scale(r),
            normalized_sample(r),
            r == spec_unit_sample(old(rng).state, 63),
            final(rng).state == spec_unit_sample_state(old(rng).state, 63),
    {
        Vec3::unit_sample_attempts(rng, 63)
    }

    /// One attempt of the sampler, recursing while attempts remain.
    #[verifier::rlimit(100)]
    fn unit_sample_attempts(rng: &mut Rng, n: u64) -> (r: Vec3)
        requires
            n <= 63,
        ensures
            unit_scale(r),
            normalized_sample(r),
            r == spec_unit_sample(old(rng).state, n as nat),
            final(rng).state == spec_unit_sample_state(old(rng).state, n as nat),
        decreases n,
    {
        let ghost prev = rng.state;
        let p = Vec3::random_range(rng, -SCALE, SCALE);
        let lensq = Vec3::length_squared(p);
        proof {
            lemma_cube_sample_parts(prev, p);
            assert(rng.state == spec_next3(prev));
            if n > 0 {
                lemma_unit_sample_step(prev, n as nat);
            } else {
                lemma_unit_sample_last(prev);
            }
        }
        if UNIT_LOW < lensq && lensq <= SCALE {
            Vec3::normalize_sample(p, lensq)
        } else if n == 0 {
            proof {
                lemma_axis_is_normalized_sample();
            }
            Vec3 { x: SCALE, y: 0, z: 0 }
        } else {
            Vec3::unit_sample_attempts(rng, n - 1)
        }
    }

    /// Normalize an accepted sample: its length is at least half the unit
    /// scale, so no quotient leaves twice the unit scale.
    fn normalize_sample(p: Vec3, lensq: i64) -> (r: Vec3)
        requires
            lensq == Vec3::spec_len_sq(p),
            UNIT_LOW < lensq <= SCALE,
            -SCALE <= p.x <= SCALE,
            -SCALE <= p.y <= SCALE,
            -SCALE <= p.z <= SCALE,
        ensures
            unit_scale(r),
            r == Vec3::spec_div(p, Vec3::spec_length(p)),
            normalized_sample(r),
    {
        let len = Vec3::length(p);
        proof {
            fx::lemma_sqrt64_bounds(lensq);
            lemma_sqrt_above((lensq as int) * (SCALE as int), 32768);
            assert((32768int) * 32768 <= (lensq as int) * (SCALE as int)) by (nonlinear_arith)
                requires
                    lensq > 16384,
            ;
            lemma_div_unit_scale(p.x, len);
            lemma_div_unit_scale(p.y, len);
            lemma_div_unit_scale(p.z, len);
        }
        p.div(len)
    }

    /// A sampled direction on the side of the surface that `normal` points
    /// to: the sampled direction itself or its negation, whichever does not
    /// oppose the normal, so the inner product is never negative.
    pub fn random_on_hemishpere(rng: &mut Rng, normal: Vec3) -> (r: Vec3)
        ensures
            unit_scale(r),
            Vec3::spec_dot(r, normal) >= 0,
            ({
                let u = spec_unit_sample(old(rng).state, 63);
                r == (if Vec3::spec_dot(u, normal) > 0 {
                    u
                } else {
                    Vec3::spec_neg(u)
                })
            }),
            final(rng).state == spec_unit_sample_state(old(rng).state, 63),
    {
        let on_unit_square = Vec3::random_unit_vector(rng);
        if Vec3::dot(on_unit_square, normal) > 0 {
            on_unit_square
        } else {
            proof {
                lemma_dot_neg_left(on_unit_square, normal);
            }
            on_unit_square.neg()
        }
    }

    pub fn refract(uv: Vec3, n: Vec3, etai_over_etat: i64) -> (r: Vec3)
        ensures
            r == Vec3::spec_refract(uv, n, etai_over_etat),
            in_sat(r),
    {
        let cos_theta = fx::fx_min(Vec3::dot(uv.neg(), n), SCALE);
        let r_out_perp = uv.add(n.scale(cos_theta)).scale(etai_over_etat);
        let k = fx::fx_sub(SCALE, Vec3::length_squared(r_out_perp));
        let s = fx::fx_sqrt(fx::fx_abs(k));
        let r_out_parallel = n.scale(fx::fx_neg(s));
        r_out_perp.add(r_out_parallel)
    }
}

/// The fixed `x`-axis fallback direction is the normalization of an
/// accepted sample: itself.
proof fn lemma_axis_is_normalized_sample()
    ensures
        normalized_sample(Vec3 { x: SCALE, y: 0, z: 0 }),
{
    let p = Vec3 { x: SCALE, y: 0, z: 0 };
    fx::lemma_mul_one_exact(SCALE);
    fx::lemma_mul_zero(0);
    assert(Vec3::spec_len_sq(p) == SCALE);
    fx::lemma_sqrt_exists((SCALE as int) * (SCALE as int));
    assert(fx::is_sqrt((SCALE as int) * (SCALE as int), SCALE as int));
    fx::lemma_sqrt_unique(
        (SCALE as int) * (SCALE as int),
        SCALE as int,
        sqrt_val((SCALE as int) * (SCALE as int)),
    );
    assert(Vec3::spec_length(p) == SCALE);
    vstd::arithmetic::div_mod::lemma_div_multiples_vanish(SCALE as int, SCALE as int);
    vstd::arithmetic::div_mod::lemma_div_of0(SCALE as int);
    assert(Vec3::spec_div(p, SCALE) == p);
}

/// A square root at least `b` whenever its argument is at least `b * b`.
proof fn lemma_sqrt_above(n: int, b: int)
    requires
        0 <= b,
        b * b <= n,
        fx::is_sqrt(n, sqrt_val(n)),
    ensures
        sqrt_val(n) >= b,
{
    let r = sqrt_val(n);
    assert(r >= b) by (nonlinear_arith)
        requires
            0 <= b,
            b * b <= n,
            fx::is_sqrt(n, r),
    ;
}

/// Dividing a component no larger than the unit scale by a length of at
/// least half the unit scale stays within twice the unit scale.
proof fn lemma_div_unit_scale(a: i64, b: i64)
    requires
        -SCALE <= a <= SCALE,
        b >= 32768,
    ensures
        -2 * SCALE <= fx::spec_div(a, b) <= 2 * SCALE,
{
    let s = SCALE as int;
    let num = (a as int) * s;
    let p = fx::mag(num);
    assert(p <= s * s) by (nonlinear_arith)
        requires
            -SCALE <= a <= SCALE,
            s == SCALE as int,
            num == (a as int) * s,
            p == fx::mag(num),
    ;
    vstd::arithmetic::div_mod::lemma_div_pos_is_pos(p, b as int);
    vstd::arithmetic::div_mod::lemma_div_is_ordered(p, s * s, b as int);
    vstd::arithmetic::div_mod::lemma_div_is_ordered_by_denominator(s * s, 32768, b as int);
    assert(s * s == 0x100000000);
    assert(0x100000000int / 32768 == 2 * SCALE);
    assert(fx::tdiv(num, b as int) == p / (b as int) || fx::tdiv(num, b as int) == -(p / (
    b as int)));
}

/// Negating the left argument (when negation is exact) negates the inner
/// product exactly: saturation is symmetric and truncation is odd.
pub proof fn lemma_dot_neg_left(u: Vec3, v: Vec3)
    requires
        in_sat(u),
    ensures
        Vec3::spec_dot(Vec3::spec_neg(u), v) == fx::spec_neg(Vec3::spec_dot(u, v)),
{
    lemma_mul_neg_left(u.x, v.x);
    lemma_mul_neg_left(u.y, v.y);
    lemma_mul_neg_left(u.z, v.z);
}

/// `(-a) * b` carries `-(a * b)` exactly when `-a` does not saturate.
proof fn lemma_mul_neg_left(a: i64, b: i64)
    requires
        -FX_MAX <= a,
    ensures
        fx::spec_mul(fx::spec_neg(a), b) == fx::spec_neg(fx::spec_mul(a, b)),
{
    assert((-(a as int)) * (b as int) == -((a as int) * (b as int))) by (nonlinear_arith);
    assert(fx::tdiv(-((a as int) * (b as int)), SCALE as int) == -fx::tdiv(
        (a as int) * (b as int),
        SCALE as int,
    ));
}

} // verus!
