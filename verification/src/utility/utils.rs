//! Seeded random draws.
//!
//! A [`Sampler`] carries the whole state of its generator as one `u64`, so
//! every random function of the library is a function of the seed it starts
//! from and says which seed it leaves behind.
use vstd::prelude::*;
use crate::utility::scalar::Scalar;

verus! {

/// What one draw of `fastrand::Rng::u64(..)` from a generator made by
/// `fastrand::Rng::with_seed(seed)` gives: the value drawn, and the seed
/// that `fastrand::Rng::get_seed` reports afterwards.
pub uninterp spec fn rng_step(seed: u64) -> (u64, u64);

/// What one draw of `fastrand::Rng::i32(min..=max)` from a generator made
/// by `fastrand::Rng::with_seed(seed)` gives: the value drawn, and the seed
/// that `fastrand::Rng::get_seed` reports afterwards.
pub uninterp spec fn rng_step_i32(seed: u64, min: i32, max: i32) -> (i32, u64);

/// What one draw of `fastrand::Rng::i64(min..=max)` from a generator made
/// by `fastrand::Rng::with_seed(seed)` gives: the value drawn, and the seed
/// that `fastrand::Rng::get_seed` reports afterwards.
pub uninterp spec fn rng_step_i64(seed: u64, min: i64, max: i64) -> (i64, u64);

/// The 64 bits drawn from a generator holding `seed`.
pub open spec fn rng_output(seed: u64) -> u64 {
    rng_step(seed).0
}

/// The seed that a generator holding `seed` holds after one draw of 64 bits.
pub open spec fn rng_successor(seed: u64) -> u64 {
    rng_step(seed).1
}

/// The integer of `min ..= max` drawn from a generator holding `seed`.
pub open spec fn rng_pick(seed: u64, min: i32, max: i32) -> i32 {
    rng_step_i32(seed, min, max).0
}

/// The seed that a generator holding `seed` holds after one draw from `min ..= max`.
pub open spec fn rng_pick_successor(seed: u64, min: i32, max: i32) -> u64 {
    rng_step_i32(seed, min, max).1
}

/// The integer of `min ..= max` drawn from a generator holding `seed`.
pub open spec fn rng_pick_wide(seed: u64, min: i64, max: i64) -> i64 {
    rng_step_i64(seed, min, max).0
}

/// The seed that a generator holding `seed` holds after one draw from `min ..= max`.
pub open spec fn rng_pick_wide_successor(seed: u64, min: i64, max: i64) -> u64 {
    rng_step_i64(seed, min, max).1
}

/// Calls `fastrand::Rng::with_seed`, `Rng::u64(..)` and `Rng::get_seed`.
///
/// The generator keeps its whole state in its seed, so the value drawn and
/// the seed left behind depend on `seed` alone; the contract gives the pair
/// its name and claims nothing else of it.
#[verifier::external_body]
fn draw_u64(seed: u64) -> (r: (u64, u64))
    ensures
        r == rng_step(seed),
{
    let mut rng = fastrand::Rng::with_seed(seed);
    let value = rng.u64(..);
    (value, rng.get_seed())
}

/// Calls `fastrand::Rng::with_seed`, `Rng::i32(min..=max)` and `Rng::get_seed`.
///
/// `i32` panics on an empty range, which `requires` leaves out. The value
/// drawn and the seed left behind depend on the arguments alone; the
/// contract gives the pair its name and claims that the value lies within
/// the range.
#[verifier::external_body]
fn draw_i32(seed: u64, min: i32, max: i32) -> (r: (i32, u64))
    requires
        min <= max,
    ensures
        r == rng_step_i32(seed, min, max),
        min <= r.0 <= max,
{
    let mut rng = fastrand::Rng::with_seed(seed);
    let value = rng.i32(min..=max);
    (value, rng.get_seed())
}

/// Calls `fastrand::Rng::with_seed`, `Rng::i64(min..=max)` and `Rng::get_seed`.
///
/// `i64` panics on an empty range, which `requires` leaves out. The value
/// drawn and the seed left behind depend on the arguments alone; the
/// contract gives the pair its name and claims that the value lies within
/// the range.
#[verifier::external_body]
fn draw_i64(seed: u64, min: i64, max: i64) -> (r: (i64, u64))
    requires
        min <= max,
    ensures
        r == rng_step_i64(seed, min, max),
        min <= r.0 <= max,
{
    let mut rng = fastrand::Rng::with_seed(seed);
    let value = rng.i64(min..=max);
    (value, rng.get_seed())
}

/// The angle in radians of an angle in degrees: `degrees * pi / 180`.
pub open spec fn spec_degrees_to_radians(degrees: Scalar) -> Scalar {
    degrees.spec_mul(Scalar::spec_pi()).spec_div(Scalar::spec_from_int(180))
}

pub fn degrees_to_radians(degrees: Scalar) -> (r: Scalar)
    ensures
        r == spec_degrees_to_radians(degrees),
{
    degrees.mul(Scalar::pi()).div(Scalar::from_int(180))
}

/// A seeded source of uniform draws.
#[derive(Clone, Copy, Debug, PartialEq, Eq, Structural)]
pub struct Sampler {
    pub seed: u64,
}

/// The uniform scalar in `0 .. 1` drawn from `seed`.
pub open spec fn spec_uniform(seed: u64) -> Scalar {
    Scalar { raw: (rng_output(seed) % 1_000_000) as i64 }
}

/// The scalar in `min .. max` drawn from `seed`.
pub open spec fn spec_random_scalar(seed: u64, min: Scalar, max: Scalar) -> Scalar {
    min.spec_add(max.spec_sub(min).spec_mul(spec_uniform(seed)))
}

impl Sampler {
    pub fn new(seed: u64) -> (r: Sampler)
        ensures
            r.seed == seed,
    {
        Sampler { seed }
    }

    /// Draws 64 uniform bits and advances the seed.
    pub fn next_u64(&mut self) -> (r: u64)
        ensures
            r == rng_output(old(self).seed),
            final(self).seed == rng_successor(old(self).seed),
    {
        let (value, next) = draw_u64(self.seed);
        self.seed = next;
        value
    }

    /// Draws a scalar uniformly from `0 .. 1`.
    pub fn uniform(&mut self) -> (r: Scalar)
        ensures
            r == spec_uniform(old(self).seed),
            final(self).seed == rng_successor(old(self).seed),
            0 <= r.raw < 1_000_000,
    {
        let bits: u64 = self.next_u64();
        Scalar { raw: (bits % 1_000_000) as i64 }
    }
}

/// Draws a scalar uniformly from `min .. max`.
pub fn random_scalar(rng: &mut Sampler, min: Scalar, max: Scalar) -> (r: Scalar)
    ensures
        r == spec_random_scalar(old(rng).seed, min, max),
        final(rng).seed == rng_successor(old(rng).seed),
{
    let u: Scalar = rng.uniform();
    min.add(max.sub(min).mul(u))
}

/// Draws an integer uniformly from `min ..= max`.
pub fn random_i32(rng: &mut Sampler, min: i32, max: i32) -> (r: i32)
    requires
        min <= max,
    ensures
        r == rng_pick(old(rng).seed, min, max),
        final(rng).seed == rng_pick_successor(old(rng).seed, min, max),
        min <= r <= max,
{
    let (value, next) = draw_i32(rng.seed, min, max);
    rng.seed = next;
    value
}

/// Draws an integer uniformly from `min ..= max`.
pub fn random_i64(rng: &mut Sampler, min: i64, max: i64) -> (r: i64)
    requires
        min <= max,
    ensures
        r == rng_pick_wide(old(rng).seed, min, max),
        final(rng).seed == rng_pick_wide_successor(old(rng).seed, min, max),
        min <= r <= max,
{
    let (value, next) = draw_i64(rng.seed, min, max);
    rng.seed = next;
    value
}

} // verus!
