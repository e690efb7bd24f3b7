//! The guest's side of the table.

use vstd::prelude::*;

verus! {

/// The guest eats. Nothing is ordered through the host here.
pub fn eat_at_restaurant() {
}

} // verus!
