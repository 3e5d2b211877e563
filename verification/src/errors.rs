//! A small call chain whose innermost function rejects one input.
use vstd::prelude::*;

verus! {

/// Calls down the chain.
pub fn a() {
    b();
}

/// Calls the checked function with an accepted value.
pub fn b() {
    c(21);
}

/// Accepts any number but twenty-two.
pub fn c(num: i32)
    requires
        num != 22,
{
}

} // verus!
