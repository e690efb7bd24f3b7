//! Producing the secret value of a session.

use rand::Rng;
use vstd::prelude::*;

verus! {

/// The smallest value a session's target can have.
pub const LOW: i32 = 1;

/// The largest value a session's target can have.
pub const HIGH: i32 = 100;

/// Draws an integer from `low..=high` with the thread-local generator of the
/// `rand` crate: `rand::thread_rng()` followed by `Rng::gen_range` on the
/// inclusive range.
///
/// `gen_range` panics on an empty range, so `low <= high` is required. For
/// an `i32` range it returns `low` plus an offset below the number of values
/// in the range, so the result lies within the bounds; nothing more is
/// claimed of it. `thread_rng` panics if the operating system gives it no
/// seed, whatever the arguments are.
#[verifier::external_body]
fn sample_inclusive(low: i32, high: i32) -> (value: i32)
    requires
        low <= high,
    ensures
        low <= value <= high,
{
    rand::thread_rng().gen_range(low..=high)
}

/// A random integer between `low` and `high`, both included.
pub fn generate(low: i32, high: i32) -> (value: i32)
    requires
        low <= high,
    ensures
        low <= value <= high,
{
    sample_inclusive(low, high)
}

/// A fresh target for a session, between `LOW` and `HIGH`.
pub fn draw_target() -> (target: i32)
    ensures
        LOW <= target <= HIGH,
{
    generate(LOW, HIGH)
}

} // verus!
