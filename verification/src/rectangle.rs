//! Rectangles with whole-number sides.

use vstd::prelude::*;

verus! {

/// A rectangle, given by the lengths of its sides.
#[derive(Clone, Copy, Debug, PartialEq, Eq, Structural)]
pub struct Rectangle {
    pub width: u32,
    pub height: u32,
}

impl Rectangle {
    /// Whether `other` fits inside this rectangle with room to spare on
    /// both sides.
    pub open spec fn holds(&self, other: &Rectangle) -> bool {
        self.width > other.width && self.height > other.height
    }

    /// The square with the given side.
    pub fn square(size: u32) -> (square: Rectangle)
        ensures
            square == (Rectangle { width: size, height: size }),
    {
        Rectangle { width: size, height: size }
    }

    /// The area of this rectangle.
    pub fn area(&self) -> (area: u32)
        requires
            self.width * self.height <= u32::MAX,
        ensures
            area == self.width * self.height,
    {
        self.width * self.height
    }

    /// Whether this rectangle has any width at all.
    pub fn width(&self) -> (wide: bool)
        ensures
            wide == (self.width > 0),
    {
        self.width > 0
    }

    /// Whether `other` fits inside this rectangle with room to spare on
    /// both sides.
    pub fn can_hold(&self, other: &Rectangle) -> (fits: bool)
        ensures
            fits == self.holds(other),
    {
        self.width > other.width && self.height > other.height
    }
}

/// The area of `rect`.
pub fn area(rect: &Rectangle) -> (area: u32)
    requires
        rect.width * rect.height <= u32::MAX,
    ensures
        area == rect.width * rect.height,
{
    rect.width * rect.height
}

/// No rectangle holds itself, and of two rectangles at most one holds the
/// other.
pub proof fn lemma_holds_is_strict(a: Rectangle, b: Rectangle)
    ensures
        !a.holds(&a),
        a.holds(&b) ==> !b.holds(&a),
{
}

/// If `a` holds `b` and `b` holds `c`, then `a` holds `c`.
pub proof fn lemma_holds_is_transitive(a: Rectangle, b: Rectangle, c: Rectangle)
    requires
        a.holds(&b),
        b.holds(&c),
    ensures
        a.holds(&c),
{
}

} // verus!
