//! Random draws.

use rand::seq::SliceRandom;
use rand::Rng;
use vstd::prelude::*;

verus! {

/// `rand::Rng::gen_range` on an inclusive range: some value between the two
/// bounds, both of them possible. It panics on an empty range, which the
/// precondition rules out.
#[verifier::external_body]
pub(crate) fn random_between(low: u128, high: u128) -> (r: u128)
    requires
        low <= high,
    ensures
        low <= r <= high,
{
    rand::thread_rng().gen_range(low..=high)
}

/// `rand::seq::SliceRandom::choose`: some element of the slice, or `None`
/// where the slice is empty.
#[verifier::external_body]
pub(crate) fn random_element(items: &Vec<u8>) -> (r: Option<u8>)
    ensures
        r is None <==> items@.len() == 0,
        r matches Some(k) ==> items@.contains(k),
{
    items.choose(&mut rand::thread_rng()).copied()
}

} // verus!
