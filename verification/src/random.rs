//! Random choices for shuffling, drawn from `rand`'s thread-local generator.

use vstd::prelude::*;

verus! {

#[verifier::external_type_specification]
#[verifier::external_body]
pub struct ExThreadRng(rand::rngs::ThreadRng);

/// The thread-local generator, `rand::rng()`.
///
/// Trusted: nothing is claimed of the generator's state.
#[verifier::external_body]
pub fn thread_rng() -> rand::rngs::ThreadRng {
    rand::rng()
}

/// Shuffles a vector in place with `SliceRandom::shuffle`.
///
/// Trusted: the outcome is random, so only what holds of every outcome is
/// claimed: the vector ends up holding the same elements, each as often as
/// before (the shuffle only swaps elements).
#[verifier::external_body]
pub fn shuffle_in_place(v: &mut Vec<usize>, rng: &mut rand::rngs::ThreadRng)
    ensures
        final(v)@.to_multiset() == old(v)@.to_multiset(),
{
    rand::seq::SliceRandom::shuffle(v.as_mut_slice(), rng);
}

/// A random number in `lo..=hi`, drawn with `Rng::random_range`.
///
/// Trusted: the outcome is random, so only its range is claimed; the range is
/// not empty, so the call does not panic.
#[verifier::external_body]
pub fn random_in_range(rng: &mut rand::rngs::ThreadRng, lo: usize, hi: usize) -> (r: usize)
    requires
        lo <= hi,
    ensures
        lo <= r <= hi,
{
    rand::Rng::random_range(rng, lo..=hi)
}

}
