//! Points in the plane.

use vstd::prelude::*;

verus! {

/// A point whose two coordinates are of one type.
#[derive(Debug)]
pub struct Point<T> {
    pub x: T,
    pub y: T,
}

impl<T> Point<T> {
    /// The first coordinate of this point.
    pub fn x(&self) -> (x: &T)
        ensures
            *x == self.x,
    {
        &self.x
    }
}

} // verus!
