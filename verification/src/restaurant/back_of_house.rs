//! Where meals are made.

use vstd::prelude::*;

verus! {

/// A breakfast. The guest picks the toast; the fruit is what the season
/// offers.
#[derive(Debug)]
pub struct Breakfast {
    pub toast: String,
    seasonal_fruit: String,
}

impl Breakfast {
    /// The toast of this breakfast.
    pub closed spec fn bread(&self) -> Seq<char> {
        self.toast@
    }

    /// The fruit that comes with this breakfast.
    pub closed spec fn fruit(&self) -> Seq<char> {
        self.seasonal_fruit@
    }

    /// A summer breakfast with the given toast. It comes with peaches.
    pub fn summer(toast: &str) -> (meal: Breakfast)
        ensures
            meal.bread() == toast@,
            meal.fruit() == "peaches"@,
    {
        Breakfast { toast: toast.to_owned(), seasonal_fruit: "peaches".to_owned() }
    }

    /// Changes the toast of this breakfast. The fruit stays.
    pub fn set_toast(&mut self, toast: &str)
        ensures
            final(self).bread() == toast@,
            final(self).fruit() == old(self).fruit(),
    {
        self.toast = toast.to_owned();
    }

    /// The toast of this breakfast.
    pub fn chosen_toast(&self) -> (toast: &str)
        ensures
            toast@ == self.bread(),
    {
        self.toast.as_str()
    }
}

/// What is served before the meal.
#[derive(Clone, Copy, Debug, PartialEq, Eq, Structural)]
pub enum Appetizer {
    Soup,
    Salad,
}

} // verus!
