//! The one source of randomness the games use: a uniform draw from a
//! half-open range.  Spawn positions, launch angles, mob speeds and
//! animation picks all come from it, in fixed-point units.

use rand::RngExt;
use vstd::prelude::*;

verus! {

/// Relies on rand's `RngExt::random_range` on `lo..hi`: it returns a value
/// of the half-open range and panics only when the range is empty, which
/// the precondition rules out.  Nothing more is promised of a random
/// draw: two calls on the same range may differ.
#[verifier::external_body]
pub fn draw_i64(lo: i64, hi: i64) -> (r: i64)
    requires
        lo < hi,
    ensures
        lo <= r < hi,
{
    rand::rng().random_range(lo..hi)
}

} // verus!
