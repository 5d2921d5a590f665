//! Pseudo-randomness for upgrade sampling and spawn placement, drawn from the
//! thread-local generator of the `rand` crate. Nothing beyond the documented
//! range is assumed of any drawn value; every consumer of a drawn value is
//! verified for all values in that range.

use vstd::prelude::*;

verus! {

/// Relies on `rand::Rng::gen_range` over `0..len`: it panics on an empty
/// range (kept out by the precondition) and otherwise returns a value of the
/// range, so below `len`.
#[verifier::external_body]
pub(crate) fn random_index(len: usize) -> (r: usize)
    requires
        1 <= len,
    ensures
        r < len,
{
    rand::Rng::gen_range(&mut rand::thread_rng(), 0..len)
}

/// Relies on `rand::RngCore::next_u32` on the thread-local generator: a
/// pseudo-random word, with nothing promised of its value.
#[verifier::external_body]
pub(crate) fn random_u32() -> u32 {
    rand::RngCore::next_u32(&mut rand::thread_rng())
}

} // verus!
