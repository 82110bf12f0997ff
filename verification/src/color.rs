//! Colors and their quantization to output bytes.
//!
//! A color reuses `Vec3` as RGB with each channel carrying a value in
//! `[0, 1]`.  Emission gamma-corrects each channel by a square root, clamps
//! it just below one and scales it to a byte, so no channel can reach 256.

use vstd::prelude::*;
use crate::fx;
use crate::fx::SCALE;
use crate::vec3::Vec3;

verus! {

pub type Color = Vec3;

/// Upper clamp on an emitted channel: just below one, so the byte stays
/// below 256.
pub const CHANNEL_MAX: i64 = 65470;

/// Every channel within `[0, 1]`.
pub open spec fn color_wf(c: Color) -> bool {
    0 <= c.x <= SCALE && 0 <= c.y <= SCALE && 0 <= c.z <= SCALE
}

#[derive(Clone, Copy, PartialEq, Eq, Structural, Debug)]
pub struct Rgb {
    pub r: u8,
    pub g: u8,
    pub b: u8,
}

/// Square-root gamma correction of a linear channel; nonpositive input
/// stays black.
pub open spec fn spec_gamma(c: i64) -> i64 {
    if c > 0 {
        fx::spec_sqrt64(c)
    } else {
        0
    }
}

/// A channel as a byte: gamma-correct, clamp into `[0, CHANNEL_MAX]`, and
/// take the top eight fractional bits.
pub open spec fn spec_channel_byte(c: i64) -> u8 {
    (fx::spec_clamp(spec_gamma(c), 0, CHANNEL_MAX) / 256) as u8
}

pub fn channel_byte(c: i64) -> (r: u8)
    ensures
        r == spec_channel_byte(c),
{
    let g = if c > 0 {
        fx::fx_sqrt(c)
    } else {
        0
    };
    proof {
        if c > 0 {
            fx::lemma_sqrt64_bounds(c);
        }
    }
    let cl = fx::fx_clamp(g, 0, CHANNEL_MAX);
    (cl / 256) as u8
}

/// The sum of sample colors, in accumulation order.
pub open spec fn spec_color_sum(cs: Seq<Color>) -> Color
    decreases cs.len(),
{
    if cs.len() == 0 {
        Vec3 { x: 0, y: 0, z: 0 }
    } else {
        Vec3::spec_add(spec_color_sum(cs.drop_last()), cs.last())
    }
}

/// A color quantized to bytes, channel by channel.
pub open spec fn spec_to_rgb8(c: Color) -> Rgb {
    Rgb { r: spec_channel_byte(c.x), g: spec_channel_byte(c.y), b: spec_channel_byte(c.z) }
}

pub fn to_rgb8(c: Color) -> (r: Rgb)
    ensures
        r == spec_to_rgb8(c),
        r.r == spec_channel_byte(c.x),
        r.g == spec_channel_byte(c.y),
        r.b == spec_channel_byte(c.z),
{
    Rgb { r: channel_byte(c.x), g: channel_byte(c.y), b: channel_byte(c.z) }
}

} // verus!
