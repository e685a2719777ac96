//! Trusted boundary to the `rand` crate: the simulation consumes entropy from
//! a caller-owned `ThreadRng`, and the only facts the proofs rely on are the
//! range bounds stated here.

use vstd::prelude::*;
use rand::Rng;

verus! {

#[verifier::external_type_specification]
#[verifier::external_body]
pub struct ExThreadRng(rand::rngs::ThreadRng);

/// Relies on rand's `Rng::random_range` over the inclusive range `lo..=hi`,
/// which returns a value within the bounds (and panics only on an empty
/// range, ruled out by the precondition).
#[verifier::external_body]
pub(crate) fn random_range_u16(rng: &mut rand::rngs::ThreadRng, lo: u16, hi: u16) -> (r: u16)
    requires
        lo <= hi,
    ensures
        lo <= r <= hi,
{
    rng.random_range(lo..=hi)
}

/// Relies on rand's `Rng::random_range` over the inclusive range `lo..=hi`,
/// which returns a value within the bounds (and panics only on an empty
/// range, ruled out by the precondition).
#[verifier::external_body]
pub(crate) fn random_range_usize(rng: &mut rand::rngs::ThreadRng, lo: usize, hi: usize) -> (r: usize)
    requires
        lo <= hi,
    ensures
        lo <= r <= hi,
{
    rng.random_range(lo..=hi)
}

} // verus!
