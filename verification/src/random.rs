//! The detector's only source of randomness: one uniform draw below a bound.

use vstd::prelude::*;
use rand::Rng;

verus! {

/// Relies on rand::Rng::gen_range on the thread-local generator: a draw from
/// `0..n` is in bounds. Nothing more is assumed of it; in particular no two
/// draws are related.
#[verifier::external_body]
pub(crate) fn random_below(n: usize) -> (r: usize)
    requires
        n > 0,
    ensures
        r < n,
{
    rand::thread_rng().gen_range(0..n)
}

} // verus!
