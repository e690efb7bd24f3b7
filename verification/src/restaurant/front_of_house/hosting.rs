//! Receiving guests.

use crate::restaurant::front_of_house::serving;
use vstd::prelude::*;

verus! {

/// Puts a guest on the waiting list: the guest is seated, then the order
/// is taken.
pub fn add_to_waitlist() {
    seat_at_table();
    serving::take_order();
}

fn seat_at_table() {
}

} // verus!
