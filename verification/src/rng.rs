//! The randomness boundary: a seeded generator from the `rand` crate behind
//! two trusted wrappers, and verified helpers that shape raw words into the
//! values sampling needs.
//!
//! Nothing is promised of the random stream itself; every function that
//! consumes a draw is verified for every possible value of it.

use crate::fx::{Fx, SCALE};
use vstd::prelude::*;

verus! {

#[verifier::external_type_specification]
#[verifier::external_body]
pub struct ExStdRng(rand::rngs::StdRng);

/// Relies on rand's `SeedableRng::seed_from_u64` for `StdRng`: builds the
/// standard generator from a word-sized seed.
#[verifier::external_body]
pub fn rng_from_seed(seed: u64) -> rand::rngs::StdRng {
    <rand::rngs::StdRng as rand::SeedableRng>::seed_from_u64(seed)
}

/// Relies on rand's `Rng::next_u64`: the generator's next word.  Nothing is
/// promised of the value.
#[verifier::external_body]
pub fn rng_next_u64(rng: &mut rand::rngs::StdRng) -> u64 {
    rand::Rng::next_u64(rng)
}

/// A scalar drawn uniformly from `[-1, 1)` (in fixed-point steps).
pub fn rand_fx_symmetric(rng: &mut rand::rngs::StdRng) -> (r: Fx)
    ensures
        -SCALE <= r.v < SCALE,
{
    let u = rng_next_u64(rng);
    Fx { v: (u % (2 * SCALE as u64)) as i64 - SCALE }
}

/// A scalar drawn uniformly from `[0, 1)` (in fixed-point steps).
pub fn rand_fx_unit(rng: &mut rand::rngs::StdRng) -> (r: Fx)
    ensures
        0 <= r.v < SCALE,
{
    let u = rng_next_u64(rng);
    Fx { v: (u % SCALE as u64) as i64 }
}

/// An index drawn uniformly from `0 .. n`.
pub fn rand_index(rng: &mut rand::rngs::StdRng, n: usize) -> (r: usize)
    requires
        n > 0,
    ensures
        r < n,
{
    let u = rng_next_u64(rng);
    (u % n as u64) as usize
}

/// A sign drawn uniformly from `{+1, -1}` (in fixed point).
pub fn rand_sign(rng: &mut rand::rngs::StdRng) -> (r: Fx)
    ensures
        r.v == SCALE || r.v == -SCALE,
{
    let u = rng_next_u64(rng);
    if u % 2 == 0 {
        Fx { v: SCALE }
    } else {
        Fx { v: -SCALE }
    }
}

} // verus!
