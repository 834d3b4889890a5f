//! The process-wide random source, threaded explicitly as a value so that
//! the sampling code stays pure and reproducible under a fixed seed.

use vstd::prelude::*;
use crate::fixed::SCALE;

verus! {

#[verifier::external_type_specification]
#[verifier::external_body]
pub struct ExStdRng(rand::rngs::StdRng);

/// Relies on rand::SeedableRng::seed_from_u64 to build a generator whose
/// stream is a function of the 64-bit seed alone.
#[verifier::external_body]
fn std_rng_from_seed(seed: u64) -> rand::rngs::StdRng {
    <rand::rngs::StdRng as rand::SeedableRng>::seed_from_u64(seed)
}

/// Relies on rand::RngCore::next_u64 for the next word of the stream;
/// nothing is promised of its value.
#[verifier::external_body]
fn std_rng_next_u64(rng: &mut rand::rngs::StdRng) -> u64 {
    rand::RngCore::next_u64(rng)
}

/// A pseudo-random source of uniform fixed-point samples in `[0, 1)`.
pub struct RandSource {
    rng: rand::rngs::StdRng,
}

impl RandSource {
    /// A source whose stream is determined by the seed.
    pub fn from_seed(seed: u64) -> RandSource {
        RandSource { rng: std_rng_from_seed(seed) }
    }

    /// The next sample: a raw fixed-point value in `[0, SCALE)`, which
    /// stands for a number in `[0, 1)`. The reduction of a uniform 64-bit
    /// word modulo the power-of-two scale keeps the distribution uniform.
    pub fn next_unit(&mut self) -> (r: i64)
        ensures
            0 <= r < SCALE,
    {
        let raw = std_rng_next_u64(&mut self.rng);
        (raw % (SCALE as u64)) as i64
    }
}

} // verus!
