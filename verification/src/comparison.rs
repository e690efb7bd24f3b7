//! Ordering a guess against the target.

use vstd::prelude::*;

verus! {

/// How a guess stands relative to the target.
#[derive(Clone, Copy, Debug, PartialEq, Eq, Structural)]
pub enum ComparisonResult {
    /// The guess is below the target.
    Less,
    /// The guess is above the target.
    Greater,
    /// The guess is the target.
    Equal,
}

/// The ordering of `guess` against `target` over the mathematical integers.
pub open spec fn compare_spec(guess: int, target: int) -> ComparisonResult {
    if guess < target {
        ComparisonResult::Less
    } else if guess > target {
        ComparisonResult::Greater
    } else {
        ComparisonResult::Equal
    }
}

/// Orders `guess` against `target`. Defined for every pair of integers.
pub fn compare(guess: i32, target: i32) -> (result: ComparisonResult)
    ensures
        result == compare_spec(guess as int, target as int),
        result == ComparisonResult::Less <==> guess < target,
        result == ComparisonResult::Greater <==> guess > target,
        result == ComparisonResult::Equal <==> guess == target,
{
    if guess < target {
        ComparisonResult::Less
    } else if guess > target {
        ComparisonResult::Greater
    } else {
        ComparisonResult::Equal
    }
}

/// Comparing an integer with itself gives `Equal`.
pub proof fn lemma_compare_reflexive(x: int)
    ensures
        compare_spec(x, x) == ComparisonResult::Equal,
{
}

/// If `x` is below `y`, then `x` against `y` is `Less` and `y` against `x`
/// is `Greater`.
pub proof fn lemma_compare_antisymmetric(x: int, y: int)
    requires
        x < y,
    ensures
        compare_spec(x, y) == ComparisonResult::Less,
        compare_spec(y, x) == ComparisonResult::Greater,
{
}

/// Every pair of integers gets exactly one of the three results, and the
/// result of the swapped pair is the mirror image.
pub proof fn lemma_compare_total(x: int, y: int)
    ensures
        compare_spec(x, y) == ComparisonResult::Less <==> x < y,
        compare_spec(x, y) == ComparisonResult::Greater <==> x > y,
        compare_spec(x, y) == ComparisonResult::Equal <==> x == y,
        compare_spec(x, y) == ComparisonResult::Less <==> compare_spec(y, x)
            == ComparisonResult::Greater,
        compare_spec(x, y) == ComparisonResult::Equal <==> compare_spec(y, x)
            == ComparisonResult::Equal,
{
}

} // verus!
