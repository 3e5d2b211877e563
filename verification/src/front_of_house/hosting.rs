//! Welcoming guests.
use vstd::prelude::*;

verus! {

/// Puts a party on the waitlist.
pub fn add_to_waitlist() {
}

/// Seats a waiting party at a table.
pub fn seat_at_table() {
}

} // verus!
