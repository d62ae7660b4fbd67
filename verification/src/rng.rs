//! Trusted interface to the `micro_rand` pseudo-random generator.
//!
//! `micro_rand::Random` is a linear congruential generator; the game uses
//! it with the default parameters (multiplier 16807, increment 0, modulus
//! 2^31 - 1). The generator is opaque to verification, so its internal seed
//! is given a name here and the two calls the game makes are wrapped with
//! the bounds the crate's source shows.

use vstd::prelude::*;

verus! {

#[verifier::external_type_specification]
#[verifier::external_body]
pub struct ExRandom(micro_rand::Random);

/// The generator's internal seed.
pub uninterp spec fn rand_state(r: micro_rand::Random) -> int;

/// The default LCG modulus, 2^31 - 1: seeds at or above it never occur once
/// the generator has stepped.
pub const RAND_MODULUS: i64 = 2_147_483_647;

/// Relies on micro_rand::Random::new: the generator stores the given seed
/// unchanged, together with the default multiplier, increment and modulus.
#[verifier::external_body]
pub fn new_random(seed: i64) -> (r: micro_rand::Random)
    ensures
        rand_state(r) == seed,
{
    micro_rand::Random::new(seed)
}

/// Relies on micro_rand::Random::next_int_i32 with the default parameters:
/// from a seed in [0, 2^31 - 1) the next seed is (16807 * seed) % (2^31 - 1),
/// again in that range, and the unit draw scaled into the range lands in
/// [min, max + 1] — the upper neighbour included because the scaling runs
/// through f32, which can round the unit draw up to exactly 1.
#[verifier::external_body]
pub fn next_bounded(r: &mut micro_rand::Random, min: i32, max: i32) -> (v: i32)
    requires
        0 <= rand_state(*old(r)) < RAND_MODULUS,
        0 <= min <= max,
        max < 0x100_0000,
    ensures
        0 <= rand_state(*final(r)) < RAND_MODULUS,
        min <= v <= max + 1,
{
    r.next_int_i32(min, max)
}

} // verus!
