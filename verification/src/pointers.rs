//! A box of one's own.
use vstd::prelude::*;

verus! {

/// A wrapper that owns a single value.
pub struct MyBox<T>(pub T);

impl<T> MyBox<T> {
    /// Wraps the value.
    pub fn new(x: T) -> (b: MyBox<T>)
        ensures
            b.0 == x,
    {
        MyBox(x)
    }

    /// A borrow of the wrapped value.
    pub fn deref(&self) -> (r: &T)
        ensures
            *r == self.0,
    {
        &self.0
    }
}

} // verus!
