//! Random choices.

use vstd::prelude::*;

verus! {

/// A random position in a list of `len` items.
///
/// Trusted: stands for rand's `thread_rng().gen_range(0..len)`, which
/// returns a value of the half-open range and panics when the range is
/// empty; `requires` leaves that out. Which value comes back is not known.
#[verifier::external_body]
pub(crate) fn random_index(len: usize) -> (index: usize)
    requires
        len > 0,
    ensures
        index < len,
{
    rand::Rng::gen_range(&mut rand::thread_rng(), 0..len)
}

} // verus!
