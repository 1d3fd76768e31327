//! The back of house of a small restaurant: breakfasts, appetizers, and the
//! choreography of fixing a wrong order.

use vstd::prelude::*;

verus! {

/// A breakfast: the customer picks the toast; the chef picks the fruit.
pub struct Breakfast {
    pub toast: String,
    seasonal_fruit: String,
}

/// The appetizers on offer.
pub enum Appetizer {
    Soup,
    Salad,
}

impl Breakfast {
    /// The chef's choice of seasonal fruit.
    pub closed spec fn fruit(&self) -> Seq<char> {
        self.seasonal_fruit@
    }

    /// Which toast the customer ordered.
    pub closed spec fn toast_kind(&self) -> Seq<char> {
        self.toast@
    }

    /// The summer breakfast: the customer's toast with peaches on the side.
    pub fn summer(toast: &str) -> (meal: Breakfast)
        ensures
            meal.toast_kind() == toast@,
            meal.fruit() == "peaches"@,
    {
        Breakfast { toast: toast.to_owned(), seasonal_fruit: "peaches".to_owned() }
    }
}

/// Run a wrong order through the kitchen again and send it out.
pub fn fix_incorrect_order() {
    cook_order();
    deliver_order();
}

/// Cook one order.
pub fn cook_order() {
}

/// Carry one order to its table.
pub fn deliver_order() {
}

} // verus!
