//! Uniform randomness, obtained from the `rand` crate behind trusted
//! wrappers. Nothing is promised of a random draw beyond its range, so every
//! function of this library that consumes a draw is verified for all values
//! the range admits.

use vstd::prelude::*;

verus! {

/// The `rand` crate's handle to the thread-local generator, opaque to the
/// verifier.
#[verifier::external_type_specification]
#[verifier::external_body]
pub struct ExThreadRng(rand::rngs::ThreadRng);

/// Relies on `rand::thread_rng`: a fresh handle to this thread's lazily
/// seeded generator. Nothing is stated of it; the draws made through it
/// promise their range themselves.
#[verifier::external_body]
pub(crate) fn fresh_rng() -> rand::rngs::ThreadRng {
    rand::thread_rng()
}

/// Relies on `rand::Rng::gen_range` on `low..high`: one sample, uniform over
/// `[low, high)`. It panics on an empty range, which `requires` rules out.
#[verifier::external_body]
pub(crate) fn draw_uniform(rng: &mut rand::rngs::ThreadRng, low: u64, high: u64) -> (r: u64)
    requires
        low < high,
    ensures
        low <= r < high,
{
    rand::Rng::gen_range(rng, low..high)
}

/// Relies on `rand::random::<u32>`: one independent draw, uniform over all
/// 32-bit values, from the thread-local generator. Nothing can be promised
/// of the value itself.
#[verifier::external_body]
pub(crate) fn random_fraction_bits() -> u32 {
    rand::random::<u32>()
}

} // verus!
