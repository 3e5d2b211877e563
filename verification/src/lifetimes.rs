//! Functions returning borrowed strings under lifetime annotations.
use vstd::prelude::*;
use vstd::string::StringSliceAdditionalSpecFns;

verus! {

/// The byte length of a string slice, as `str::len` reports it.
pub open spec fn byte_len(s: &str) -> usize {
    s.spec_bytes().len() as usize
}

/// Returns whichever of the two strings has the greater byte length,
/// preferring the second on a tie.
pub fn longest_string<'a>(x: &'a str, y: &'a str) -> (r: &'a str)
    ensures
        byte_len(x) > byte_len(y) ==> r@ == x@,
        byte_len(x) <= byte_len(y) ==> r@ == y@,
{
    if x.len() > y.len() {
        x
    } else {
        y
    }
}

/// Returns its first argument.
pub fn longest<'a>(x: &'a str, y: &str) -> (r: &'a str)
    ensures
        r@ == x@,
{
    x
}

/// Returns a fixed owned string, whatever the arguments are.
pub fn longest1(x: &str, y: &str) -> (r: String)
    ensures
        r@ == "really long string"@,
{
    let result = String::from_str("really long string");
    result
}

} // verus!
