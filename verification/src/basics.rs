//! Elementary arithmetic functions.
use vstd::prelude::*;

verus! {

/// Adds two signed integers.
pub fn add(x: i32, y: i32) -> (r: i32)
    requires
        i32::MIN <= x + y <= i32::MAX,
    ensures
        r == x + y,
{
    x + y
}

/// Adds five to the given integer.
pub fn add_five(a: i32) -> (r: i32)
    requires
        a + 5 <= i32::MAX,
    ensures
        r == a + 5,
{
    a + 5
}

} // verus!
