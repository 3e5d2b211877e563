//! Eating at the restaurant: walking the module paths from outside.
use vstd::prelude::*;

pub use crate::front_of_house::hosting;

verus! {

/// Joins the waitlist twice, once by the absolute path and once through
/// the re-export.
pub fn eat_at_restaurant() {
    crate::front_of_house::hosting::add_to_waitlist();
    hosting::add_to_waitlist();
}

/// Carries a finished order to its table.
pub fn deliver_order() {
}

/// Orders one of each appetizer.
pub fn eat_at_restaurant2() {
    let order1 = crate::back_of_house::Appetizer::Soup;
    let order2 = crate::back_of_house::Appetizer::Salad;
}

/// Joins the waitlist through the re-exported hosting module.
pub fn eat_at_restaurant3() {
    hosting::add_to_waitlist();
}

} // verus!
