//! Per-task pseudo-random streams.
//!
//! Every render task owns its own seeded generator, so parallel tasks never
//! share mutable state and a fixed seed reproduces the same image. The raw
//! draws come from the `rand` crate behind trusted wrappers; everything that
//! shapes a draw (ranges, rejection sampling) is verified code.

use vstd::prelude::*;
use rand::{RngCore, SeedableRng};
use crate::fx::FX_ONE;
use crate::vec3::{dot_s, in_range_s, Vec3};

verus! {

/// Declares rand's `StdRng` so a field can hold it; the generator is opaque
/// here and is touched only through the two wrappers below.
#[verifier::external_type_specification]
#[verifier::external_body]
pub struct ExStdRng(rand::rngs::StdRng);

/// Relies on rand's `StdRng::seed_from_u64` (`SeedableRng`): constructs a
/// generator whose stream is a function of the seed alone.
#[verifier::external_body]
fn stdrng_from_seed(seed: u64) -> rand::rngs::StdRng {
    rand::rngs::StdRng::seed_from_u64(seed)
}

/// Relies on rand's `RngCore::next_u64` for `StdRng`: draws the next value
/// of the stream. Nothing can be promised of a random draw.
#[verifier::external_body]
fn stdrng_next(rng: &mut rand::rngs::StdRng) -> u64 {
    rng.next_u64()
}

/// A pseudo-random stream owned by one render task.
pub struct Rng {
    inner: rand::rngs::StdRng,
}

/// A point strictly inside the unit sphere, on the fixed-point grid.
pub open spec fn in_sphere_s(v: Vec3) -> bool {
    dot_s(v, v) < FX_ONE && in_range_s(v, FX_ONE)
}

/// A point strictly inside the unit disk of the xy-plane.
pub open spec fn in_disk_s(v: Vec3) -> bool {
    in_sphere_s(v) && v.z == 0
}

impl Rng {
    pub fn from_seed(seed: u64) -> Rng {
        Rng { inner: stdrng_from_seed(seed) }
    }

    fn next_bits(&mut self) -> u64 {
        stdrng_next(&mut self.inner)
    }

    /// A draw in `[0, bound)`.
    pub fn below(&mut self, bound: i64) -> (r: i64)
        requires
            0 < bound,
        ensures
            0 <= r < bound,
    {
        (self.next_bits() % (bound as u64)) as i64
    }

    /// A fixed-point draw in the unit interval `[0, 1)`.
    pub fn unit_interval(&mut self) -> (r: i64)
        ensures
            0 <= r < FX_ONE,
    {
        self.below(FX_ONE)
    }

    /// A fixed-point draw in `[-1, 1)`.
    pub fn symmetric_unit(&mut self) -> (r: i64)
        ensures
            -FX_ONE <= r < FX_ONE,
    {
        self.below(131072) - FX_ONE
    }
}

/// A uniformly-drawn point inside the unit sphere, by rejection sampling.
/// The retry budget is large enough that the center fallback is, in
/// practice, never taken; it keeps the sampler total.
pub fn random_in_unit_sphere(rng: &mut Rng) -> (v: Vec3)
    ensures
        in_sphere_s(v),
{
    let mut tries: u64 = 0;
    while tries < 128
        decreases 128 - tries,
    {
        let v = Vec3::new(rng.symmetric_unit(), rng.symmetric_unit(), rng.symmetric_unit());
        if v.length_squared() < FX_ONE {
            return v;
        }
        tries = tries + 1;
    }
    Vec3::new(0, 0, 0)
}

/// A uniformly-drawn point inside the unit disk, by rejection sampling, with
/// the same center fallback as the sphere sampler.
pub fn random_in_unit_disk(rng: &mut Rng) -> (v: Vec3)
    ensures
        in_disk_s(v),
{
    let mut tries: u64 = 0;
    while tries < 128
        decreases 128 - tries,
    {
        let v = Vec3::new(rng.symmetric_unit(), rng.symmetric_unit(), 0);
        if v.length_squared() < FX_ONE {
            return v;
        }
        tries = tries + 1;
    }
    Vec3::new(0, 0, 0)
}

/// A color with each channel drawn from `[lo, lo + span)`.
pub fn random_color(rng: &mut Rng, lo: i64, span: i64) -> (v: Vec3)
    requires
        0 < span,
        0 <= lo,
        lo + span <= FX_ONE + 1,
    ensures
        in_range_s(v, FX_ONE),
        lo <= v.x < lo + span,
        lo <= v.y < lo + span,
        lo <= v.z < lo + span,
{
    Vec3::new(lo + rng.below(span), lo + rng.below(span), lo + rng.below(span))
}

} // verus!
