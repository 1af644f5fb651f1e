//! The random draws the library makes, through `rand`'s thread-local
//! generator. Nothing ties one draw to another: each contract states only
//! what holds of every outcome.

use rand::RngExt;
use vstd::prelude::*;

verus! {

/// `rand::rng().random_range(0..=255)` for one colour channel: any `u8`
/// may come back. (`rand::rng` panics only when the operating system's
/// random source fails at seeding, which no argument can rule out.)
#[verifier::external_body]
pub(crate) fn random_channel() -> u8 {
    rand::rng().random_range(0..=255u8)
}

/// `rand::rng().random_range(0..n)`: some index below `n`. The range must
/// not be empty, else `random_range` panics.
#[verifier::external_body]
pub(crate) fn random_below(n: usize) -> (k: usize)
    requires
        0 < n,
    ensures
        k < n,
{
    rand::rng().random_range(0..n)
}

} // verus!
