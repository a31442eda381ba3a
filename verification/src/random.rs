//! The random draws of the simulation, taken from the `rand` crate.
//!
//! Nothing in this file is proved: each item states what the `rand` crate does, as far as
//! the rules of the world depend on it. What is done with a draw is decided elsewhere, by
//! functions that take the draw as an argument.

use rand::rngs::ThreadRng;
use rand::seq::SliceRandom;
use rand::Rng;
use vstd::prelude::*;

verus! {

/// The generator type of `rand::thread_rng`. Its inside is of no concern here.
#[verifier::external_type_specification]
#[verifier::external_body]
pub struct ExThreadRng(rand::rngs::ThreadRng);

/// `rand::thread_rng`: a handle to the generator of the running thread. Nothing is
/// claimed of it.
pub assume_specification[ rand::thread_rng ]() -> (rng: rand::rngs::ThreadRng)
;

/// `Rng::gen_ratio`: a coin that shows `true` with chance `numerator / denominator`.
/// The call is only made with a proper ratio (it panics on others). The crate documents
/// that the ratio 1 always gives `true` and the ratio 0 always gives `false`; nothing else
/// is claimed of the outcome.
#[verifier::external_body]
pub(crate) fn random_ratio(rng: &mut ThreadRng, numerator: u32, denominator: u32) -> (hit: bool)
    requires
        denominator > 0,
        numerator <= denominator,
    ensures
        numerator == denominator ==> hit,
        numerator == 0 ==> !hit,
{
    rng.gen_ratio(numerator, denominator)
}

/// `Rng::gen_range` on an inclusive range of `u16`: some number from `low` to `high`, both
/// ends included. The call is only made with a range that is not empty (it panics on an
/// empty one).
#[verifier::external_body]
pub(crate) fn random_in_range(rng: &mut ThreadRng, low: u16, high: u16) -> (n: u16)
    requires
        low <= high,
    ensures
        low <= n <= high,
{
    rng.gen_range(low..=high)
}

/// `Rng::gen` for a byte: any byte at all.
#[verifier::external_body]
pub(crate) fn random_byte(rng: &mut ThreadRng) -> (n: u8)
{
    rng.gen()
}

/// `SliceRandom::shuffle`: reorders the items in place by a sequence of swaps, so the
/// same items are there afterwards, each as often as before.
#[verifier::external_body]
pub(crate) fn shuffle(rng: &mut ThreadRng, order: &mut Vec<u32>)
    ensures
        final(order)@.to_multiset() == old(order)@.to_multiset(),
{
    order.shuffle(rng)
}

} // verus!
