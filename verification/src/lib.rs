//! A recursive Monte Carlo path tracer over fixed-point arithmetic.
//!
//! Geometry, colors and camera state are carried as `i64` scalars holding
//! `value * SCALE`, so every arithmetic step has an exact integer meaning
//! that the contracts in each module state and Verus checks.

pub mod fx;
pub mod rng;
pub mod vec3;
pub mod interval;
pub mod ray;
pub mod color;
pub mod material;
pub mod hittable;
pub mod sphere;
pub mod hittable_list;
pub mod camera;
