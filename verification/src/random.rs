//! The one place where chance comes in.

use rand::Rng;
use vstd::prelude::*;

verus! {

/// Draws a number between `low` and `high`, both included.
///
/// This calls `rand::Rng::gen_range` on the generator that
/// `rand::thread_rng` hands out, with the range `low..=high`. Verus takes on
/// trust that the number drawn lies in that range; nothing is said about
/// which number it is, and two draws may differ. `gen_range` panics on an
/// empty range, which `low <= high` rules out.
#[verifier::external_body]
pub(crate) fn random_in(low: i32, high: i32) -> (drawn: i32)
    requires
        low <= high,
    ensures
        low <= drawn <= high,
{
    rand::thread_rng().gen_range(low..=high)
}

} // verus!
