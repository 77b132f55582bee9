//! The engine's one source of chance: picking an index at random when a
//! fallback move must be chosen.

use vstd::prelude::*;
use rand::Rng;

verus! {

/// Relies on rand::Rng::gen_range over the range `0..n`: for a nonempty
/// range it returns a value drawn from that range. Nothing is assumed about
/// which value comes back.
#[verifier::external_body]
pub(crate) fn random_below(n: usize) -> (r: usize)
    requires
        n > 0,
    ensures
        r < n,
{
    rand::thread_rng().gen_range(0..n)
}

} // verus!
