//! Structs with methods: a user account and a rectangle.
use vstd::prelude::*;

verus! {

/// A user account.
pub struct User {
    pub username: String,
    pub email: String,
    pub sign_in_count: u64,
    pub active: bool,
}

/// Builds an active user with a single sign-in from a name and an email.
pub fn build_user(username: String, email: String) -> (u: User)
    ensures
        u.username == username,
        u.email == email,
        u.sign_in_count == 1,
        u.active == true,
{
    User { username, email, sign_in_count: 1, active: true }
}

/// A rectangle described by its height and width.
#[derive(Debug)]
pub struct Rectangle {
    pub height: u32,
    pub width: u32,
}

impl Rectangle {
    /// The rectangle's area.
    pub fn area1(&self) -> (r: u32)
        requires
            self.height * self.width <= u32::MAX,
        ensures
            r == self.height * self.width,
    {
        self.height * self.width
    }

    /// Whether this rectangle is strictly taller and strictly wider than the other.
    pub fn can_hold(&self, other: &Rectangle) -> (r: bool)
        ensures
            r == (self.height > other.height && self.width > other.width),
    {
        self.height > other.height && self.width > other.width
    }
}

/// The area of the given rectangle.
pub fn area(rectangle: &Rectangle) -> (r: u32)
    requires
        rectangle.height * rectangle.width <= u32::MAX,
    ensures
        r == rectangle.height * rectangle.width,
{
    rectangle.height * rectangle.width
}

} // verus!
