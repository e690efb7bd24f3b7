//! Serving guests.

use vstd::prelude::*;

verus! {

/// Takes the order of a seated guest.
pub fn take_order() {
}

} // verus!
