//! Trusted wrappers around the random-number calls of the `rand` crate.

use vstd::prelude::*;

verus! {

/// Relies on `rand::Rng::random_range` over an inclusive integer range:
/// the result is uniformly sampled from the range, so it lies between the
/// bounds.  The range must be non-empty, since `random_range` panics on an
/// empty one.
#[verifier::external_body]
pub(crate) fn random_in_range(lo: u32, hi: u32) -> (r: u32)
    requires
        lo <= hi,
    ensures
        lo <= r <= hi,
{
    rand::Rng::random_range(&mut rand::rng(), lo..=hi)
}

/// Relies on `rand::seq::IndexedRandom::choose`: for a non-empty slice it
/// returns `Some` of one uniformly-sampled element; for an empty slice it
/// returns `None`.
#[verifier::external_body]
pub(crate) fn choose_char(pool: &Vec<char>) -> (r: Option<char>)
    ensures
        r is Some <==> pool@.len() > 0,
        r matches Some(c) ==> pool@.contains(c),
{
    rand::seq::IndexedRandom::choose(pool.as_slice(), &mut rand::rng()).copied()
}

} // verus!
