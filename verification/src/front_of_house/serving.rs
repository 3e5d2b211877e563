//! Waiting on seated guests.
use vstd::prelude::*;

verus! {

/// Writes down what a table wants.
pub fn take_order() {
}

/// Brings an order out.
pub fn serve_order() {
}

/// Settles a table's bill.
pub fn take_payment() {
}

} // verus!
