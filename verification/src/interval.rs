//! Closed scalar ranges, used to bound the intersection parameter `t`.

use vstd::prelude::*;
use crate::fx;

verus! {

#[derive(Clone, Copy, PartialEq, Eq, Structural, Debug)]
pub struct Interval {
    pub min: i64,
    pub max: i64,
}

impl Interval {
    pub open spec fn spec_new(min: i64, max: i64) -> Interval {
        Interval { min, max }
    }

    /// Containment, inclusive at both ends.
    pub open spec fn spec_contains(self, x: i64) -> bool {
        self.min <= x && x <= self.max
    }

    /// Containment, exclusive at both ends.
    pub open spec fn spec_surronds(self, x: i64) -> bool {
        self.min < x && x < self.max
    }

    pub fn new(min: i64, max: i64) -> (r: Interval)
        ensures
            r == Interval::spec_new(min, max),
    {
        Interval { min, max }
    }

    pub fn size(&self) -> (r: i64)
        ensures
            r == fx::spec_sub(self.max, self.min),
    {
        fx::fx_sub(self.max, self.min)
    }

    pub fn contains(&self, x: i64) -> (r: bool)
        ensures
            r == self.spec_contains(x),
    {
        self.min <= x && self.max >= x
    }

    pub fn surronds(&self, x: i64) -> (r: bool)
        ensures
            r == self.spec_surronds(x),
    {
        self.min < x && self.max > x
    }
}

} // verus!
