//! The kitchen: meals, appetizers, and fixing mistaken orders.
use vstd::prelude::*;
use vstd::string::StringExecFns;

verus! {

/// A breakfast order. The toast may be chosen; the fruit comes with the season.
pub struct Breakfast {
    pub toast: String,
    seasonal_fruit: String,
}

impl Breakfast {
    /// The toast on the plate.
    pub closed spec fn spec_toast(&self) -> Seq<char> {
        self.toast@
    }

    /// The fruit the kitchen put on the plate.
    pub closed spec fn spec_fruit(&self) -> Seq<char> {
        self.seasonal_fruit@
    }

    /// A summer breakfast with the chosen toast and peaches on the side.
    pub fn summer(toast: &str) -> (b: Breakfast)
        ensures
            b.spec_toast() == toast@,
            b.spec_fruit() == "peaches"@,
    {
        Breakfast { toast: String::from_str(toast), seasonal_fruit: String::from_str("peaches") }
    }
}

/// An appetizer on the menu.
pub enum Appetizer {
    Soup,
    Salad,
}

/// Cooks a mistaken order again and has it delivered.
pub fn fix_incorrect_order() {
    cook_order();
    crate::restaurant::deliver_order();
}

/// Cooks one order.
pub fn cook_order() {
}

} // verus!
