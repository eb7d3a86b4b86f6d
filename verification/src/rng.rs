//! Deterministic pseudo-random draws.
//!
//! Every draw seeds a fresh Isaac generator and takes a single value from it,
//! so the outcome is a function of the seed alone. That is what makes a whole
//! game reproducible from its inputs, and it is why the two draws below can be
//! named by uninterpreted spec functions.

use vstd::prelude::*;

verus! {

/// The first boolean an Isaac generator seeded with `seed` produces.
pub uninterp spec fn isaac_bool(seed: u64) -> bool;

/// The index in `[0, bound)` that an Isaac generator seeded with `seed`
/// produces for a uniform draw with that bound.
pub uninterp spec fn isaac_index(seed: u64, bound: usize) -> usize;

/// Relies on `rand_isaac::IsaacRng::seed_from_u64` and `rand::Rng::gen::<bool>`:
/// Isaac is a fixed algorithm, so the first boolean drawn from a freshly
/// seeded generator depends on the seed alone.
#[verifier::external_body]
pub(crate) fn draw_bool(seed: u64) -> (r: bool)
    ensures
        r == isaac_bool(seed),
{
    let mut rng: rand_isaac::IsaacRng = rand::SeedableRng::seed_from_u64(seed);
    rand::Rng::gen::<bool>(&mut rng)
}

/// Relies on `rand_isaac::IsaacRng::seed_from_u64` and `rand::Rng::gen_range`,
/// which draws uniformly from `[0, bound)` and panics on an empty range (hence
/// the precondition). The draw depends on the seed and the bound alone.
#[verifier::external_body]
pub(crate) fn draw_index(seed: u64, bound: usize) -> (r: usize)
    requires
        bound > 0,
    ensures
        r == isaac_index(seed, bound),
        r < bound,
{
    let mut rng: rand_isaac::IsaacRng = rand::SeedableRng::seed_from_u64(seed);
    rand::Rng::gen_range(&mut rng, 0, bound)
}

} // verus!
