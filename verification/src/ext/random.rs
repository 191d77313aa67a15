//! Random numbers from the `rand` crate.
use vstd::prelude::*;

use dashmap::DashSet;
use rand::rngs::StdRng;
use rand::seq::IteratorRandom;
use rand::{Rng, SeedableRng};

use super::dash::port_set;

verus! {

#[verifier::external_type_specification]
#[verifier::external_body]
pub struct ExStdRng(::rand::rngs::StdRng);

/// `SeedableRng::seed_from_u64`: a generator seeded with `seed`.
#[verifier::external_body]
pub(crate) fn rng_from_seed(seed: u64) -> StdRng {
    StdRng::seed_from_u64(seed)
}

/// `Rng::gen_range(0..n)`: some number below `n`; which one is left to
/// chance.
#[verifier::external_body]
pub(crate) fn random_below(rng: &mut StdRng, n: usize) -> (r: usize)
    requires
        n > 0,
    ensures
        r < n,
{
    rng.gen_range(0..n)
}

/// `IteratorRandom::choose` over the ports of a set: `None` exactly when
/// the set is empty, else one of its ports; which one is left to chance.
#[verifier::external_body]
pub(crate) fn choose_port(pool: &DashSet<u16>, rng: &mut StdRng) -> (r: Option<u16>)
    ensures
        r is None <==> port_set(*pool) =~= Set::<u16>::empty(),
        r matches Some(p) ==> port_set(*pool).contains(p),
{
    pool.iter().map(|entry| *entry).choose(rng)
}

} // verus!
