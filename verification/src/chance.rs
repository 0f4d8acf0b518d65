//! Random draws. The numbers come from the `rand` crate; what is stated of
//! them here is taken on trust from that crate.

use rand::seq::IndexedMutRandom;
use rand::Rng;
use vstd::prelude::*;

verus! {

/// Draws a number from `low..high` with `rand::Rng::random_range` on the
/// generator of the current thread (`rand::rng`).
///
/// Trusted: the number drawn lies in the range, `low` included and `high`
/// excluded. `random_range` panics on an empty range, so the range must not
/// be empty.
#[verifier::external_body]
pub(crate) fn random_in_range(low: u16, high: u16) -> (drawn: u16)
    requires
        low < high,
    ensures
        low <= drawn < high,
{
    rand::rng().random_range(low..high)
}

/// Picks one of `items` with `rand::seq::IndexedMutRandom::choose_mut` on the
/// generator of the current thread (`rand::rng`), and hands out a copy of it.
///
/// Trusted: nothing is picked from an empty slice; from any other slice the
/// pick is one of its items.
#[verifier::external_body]
pub(crate) fn pick_one<T: Copy>(items: &[T]) -> (picked: Option<T>)
    ensures
        items@.len() == 0 ==> picked is None,
        items@.len() > 0 ==> picked is Some && items@.contains(picked->0),
{
    let mut pool = items.to_vec();
    pool.choose_mut(&mut rand::rng()).copied()
}

} // verus!
