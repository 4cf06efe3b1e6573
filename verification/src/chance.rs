//! The one place where the library draws random numbers.

use rand::Rng;
use vstd::prelude::*;

verus! {

/// Draws an integer from `low..=high` with the thread-local generator of the
/// `rand` crate, by `rand::thread_rng().gen_range(low..=high)`.
///
/// Not proved: the contract repeats what `Rng::gen_range` documents, namely that the
/// value lies in the given range, and leaves out the empty range on which it
/// panics. Nothing is claimed about which value of the range comes back.
/// `thread_rng` itself panics if the operating system cannot seed the generator.
#[verifier::external_body]
pub(crate) fn uniform_inclusive(low: u8, high: u8) -> (drawn: u8)
    requires
        low <= high,
    ensures
        low <= drawn <= high,
{
    rand::thread_rng().gen_range(low..=high)
}

} // verus!
