//! Rectangle comparison by area, addition helpers, and a greeting builder.
use vstd::prelude::*;

verus! {

/// The product of two 32-bit values always fits in 64 bits.
proof fn lemma_u32_product_fits(a: u32, b: u32)
    ensures
        a * b <= u64::MAX,
{
    assert(a * b <= 0xffff_ffff * 0xffff_ffff) by (nonlinear_arith)
        requires
            a <= 0xffff_ffffu32,
            b <= 0xffff_ffffu32,
    ;
}

/// A rectangle described by its height and width.
#[derive(Debug)]
pub struct Rectangle {
    pub height: u32,
    pub width: u32,
}

impl Rectangle {
    /// Whether this rectangle's area is strictly larger than the other's.
    pub fn can_hold(&self, other: &Rectangle) -> (r: bool)
        ensures
            r == (self.height * self.width > other.height * other.width),
    {
        proof {
            lemma_u32_product_fits(self.height, self.width);
            lemma_u32_product_fits(other.height, other.width);
        }
        let own: u64 = (self.height as u64) * (self.width as u64);
        let theirs: u64 = (other.height as u64) * (other.width as u64);
        own > theirs
    }
}

/// Adds two unsigned sizes.
pub fn add(left: usize, right: usize) -> (r: usize)
    requires
        left + right <= usize::MAX,
    ensures
        r == left + right,
{
    left + right
}

/// Adds two to the given integer.
pub fn add_two(a: i32) -> (r: i32)
    requires
        a + 2 <= i32::MAX,
    ensures
        r == a + 2,
{
    a + 2
}

/// Builds a greeting that addresses the given name.
pub fn greeting(name: &str) -> (r: String)
    ensures
        r@ == "Hello ! "@ + name@,
{
    let mut r = String::from_str("Hello ! ");
    r.append(name);
    r
}

} // verus!
