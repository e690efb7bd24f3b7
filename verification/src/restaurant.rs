//! A restaurant, split into the front of the house, where guests are
//! seated and served, and the back of the house, where meals are made.

pub mod back_of_house;
pub mod customer;
pub mod front_of_house;

use crate::restaurant::back_of_house::Breakfast;
use crate::restaurant::front_of_house::hosting;
use vstd::prelude::*;
use vstd::string::StringExecFns;

verus! {

/// The sentence with which a guest orders toast of the given kind.
pub open spec fn toast_order(toast: Seq<char>) -> Seq<char> {
    "I'd like "@ + toast + " toast please."@
}

/// Orders a summer breakfast, changes the toast from rye to wheat, and
/// returns the sentence that places the order.
pub fn eat_at_restaurant() -> (order: String)
    ensures
        order@ == toast_order("Wheat"@),
{
    let mut meal = Breakfast::summer("Rye");
    meal.set_toast("Wheat");
    let mut order = "I'd like ".to_owned();
    order.append(meal.chosen_toast());
    order.append(" toast please.");
    order
}

/// Puts the guest on the waiting list once more.
pub fn eat_at_restaurant_again() {
    hosting::add_to_waitlist();
}

} // verus!
