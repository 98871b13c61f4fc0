//! What the game leaves to chance, drawn from the random number generator of
//! the thread. That generator is seeded from the operating system when a
//! thread first uses it, and a draw panics if the seeding fails.

use vstd::prelude::*;

verus! {

/// `rand::random_ratio`: a boolean that is true with the chance
/// `numerator / denominator`. The contract states the two cases in which
/// the answer is fixed: never true for a numerator of 0, always true where
/// numerator and denominator are equal. A denominator of 0 and a numerator
/// above the denominator are left out, since the call panics on them.
pub assume_specification[ rand::random_ratio ](numerator: u32, denominator: u32) -> (hit: bool)
    requires
        denominator > 0,
        numerator <= denominator,
    ensures
        numerator == 0 ==> !hit,
        numerator == denominator ==> hit,
;

/// `rand::random_range` on the range from 0 up to `len`, `len` itself left
/// out: the index that comes back lies in that range. An empty range is
/// left out, since the call panics on it.
#[verifier::external_body]
pub(crate) fn random_index(len: usize) -> (index: usize)
    requires
        len > 0,
    ensures
        index < len,
{
    rand::random_range(0..len)
}

} // verus!
