//! Deterministic pseudo-random draws.
//!
//! Sampling (pixel jitter, lens points, scatter directions, the dielectric
//! reflect-or-refract choice) draws from an explicit generator passed by
//! reference, so a render is reproducible from its seed.  The generator is
//! a linear congruential step on 64 bits; its exact successor state and the
//! value of every draw are stated in the contracts.

use vstd::prelude::*;
use crate::fx;
use crate::fx::{SCALE, FX_MAX};

verus! {

/// Multiplier of the congruential step.
pub const RNG_MUL: u64 = 6364136223846793005;

/// Increment of the congruential step.
pub const RNG_INC: u64 = 1442695040888963407;

/// The successor of a generator state.
pub open spec fn spec_next(s: u64) -> u64 {
    (((RNG_MUL as int) * (s as int) + RNG_INC as int) % 0x10000000000000000) as u64
}

/// A fixed-point draw in `[0, SCALE)` taken from the upper bits of a state.
pub open spec fn spec_draw(s: u64) -> i64 {
    ((spec_next(s) >> 33) % (SCALE as u64)) as i64
}

/// Three generator steps, the cost of drawing one vector.
pub open spec fn spec_next3(s: u64) -> u64 {
    spec_next(spec_next(spec_next(s)))
}

/// A scalar draw mapped into `[min, max]`: `min + draw * (max - min)`.
pub open spec fn spec_range_draw(s: u64, min: i64, max: i64) -> i64 {
    fx::spec_add(min, fx::spec_mul(spec_draw(s), fx::spec_sub(max, min)))
}

pub struct Rng {
    pub state: u64,
}

impl Rng {
    pub fn new(seed: u64) -> (r: Rng)
        ensures
            r.state == seed,
    {
        Rng { state: seed }
    }

    /// Advance the generator one step and return the new state.
    pub fn next_state(&mut self) -> (r: u64)
        ensures
            final(self).state == spec_next(old(self).state),
            r == final(self).state,
    {
        proof {
            assert((RNG_MUL as int) * (self.state as int) + (RNG_INC as int) < u128::MAX)
                by (nonlinear_arith)
                requires
                    self.state <= u64::MAX,
            ;
        }
        let wide: u128 = (RNG_MUL as u128) * (self.state as u128) + (RNG_INC as u128);
        let next: u64 = (wide % 0x10000000000000000u128) as u64;
        proof {
            vstd::arithmetic::div_mod::lemma_mod_division_less_than_divisor(
                wide as int,
                0x10000000000000000,
            );
        }
        self.state = next;
        next
    }

    /// A fixed-point value in `[0, SCALE)`, uniform over the draw space.
    pub fn random_fx(&mut self) -> (r: i64)
        ensures
            final(self).state == spec_next(old(self).state),
            r == spec_draw(old(self).state),
            0 <= r < SCALE,
    {
        let s = self.next_state();
        let bits: u64 = (s >> 33) % (SCALE as u64);
        proof {
            vstd::arithmetic::div_mod::lemma_mod_division_less_than_divisor(
                (s >> 33) as int,
                SCALE as int,
            );
        }
        bits as i64
    }

    /// A fixed-point value drawn into `[min, max]`.
    pub fn random_fx_range(&mut self, min: i64, max: i64) -> (r: i64)
        requires
            -FX_MAX <= min <= max,
        ensures
            final(self).state == spec_next(old(self).state),
            r == spec_range_draw(old(self).state, min, max),
            min <= r <= max,
    {
        let d = self.random_fx();
        let diff = fx::fx_sub(max, min);
        proof {
            assert(0 <= diff && diff <= max - min);
            fx::lemma_mul_unit_range(d, diff);
        }
        let p = fx::fx_mul(d, diff);
        let r = fx::fx_add(min, p);
        proof {
            assert(min <= min + p <= max);
        }
        r
    }
}

} // verus!
