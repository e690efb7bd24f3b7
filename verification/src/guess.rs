//! A guess that is known to lie within the bounds of the game.

use vstd::prelude::*;

verus! {

/// A guess between 1 and 100 that is not 32.
#[derive(Debug)]
pub struct Guess {
    value: i32,
}

impl View for Guess {
    type V = int;

    closed spec fn view(&self) -> int {
        self.value as int
    }
}

impl Guess {
    /// Whether `value` can be made into a guess: it lies between 1 and 100
    /// and is not 32.
    pub open spec fn admits(value: int) -> bool {
        value != 32 && 1 <= value <= 100
    }

    /// The guess with the given value.
    pub fn new(value: i32) -> (guess: Guess)
        requires
            Guess::admits(value as int),
        ensures
            guess@ == value,
    {
        Guess { value }
    }
}

} // verus!
