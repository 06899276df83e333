//! The random step of a worker: rearranging its private copy.
//!
//! Nothing in this file is proved. Each function hands its arguments to the
//! `rand` crate, and its contract is what the verified code takes on trust.

use rand::rngs::ThreadRng;
use rand::seq::SliceRandom;
use vstd::prelude::*;

use crate::order::same_items;

verus! {

#[verifier::external_type_specification]
#[verifier::external_body]
pub struct ExThreadRng(rand::rngs::ThreadRng);

/// Calls `rand::thread_rng`, which hands out the calling thread's generator.
/// Nothing is claimed of the generator. `rand` stops the thread if the system
/// cannot seed it.
#[verifier::external_body]
pub(crate) fn local_generator() -> (rng: ThreadRng) {
    rand::thread_rng()
}

/// Calls `rand::seq::SliceRandom::shuffle` on the elements of `items`.
/// The shuffle only swaps elements of the slice with each other, so the
/// claim is that `items` afterwards holds what it held before, each
/// element as often: which order comes out is left open.
#[verifier::external_body]
pub(crate) fn shuffle(items: &mut Vec<isize>, rng: &mut ThreadRng)
    ensures
        same_items(final(items)@, old(items)@),
{
    items.shuffle(rng);
}

} // verus!
