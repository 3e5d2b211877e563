//! Generic points and functions that pick the largest element of a list.
use vstd::prelude::*;
use core::cmp::Ordering;
use vstd::std_specs::cmp::PartialOrdSpec;

verus! {

/// A point whose two coordinates share one type.
#[derive(Debug)]
pub struct Point<T> {
    pub x: T,
    pub y: T,
}

impl<T> Point<T> {
    /// A borrow of the first coordinate.
    pub fn x(&self) -> (r: &T)
        ensures
            *r == self.x,
    {
        &self.x
    }
}

/// A point whose two coordinates may differ in type.
pub struct Pointer<X1, Y1> {
    pub x: X1,
    pub y: Y1,
}

impl<X1, Y1> Pointer<X1, Y1> {
    /// Combines this point's first coordinate with the other's second.
    pub fn mixup<X2, Y2>(self, other: Pointer<X2, Y2>) -> (r: Pointer<X1, Y2>)
        ensures
            r.x == self.x,
            r.y == other.y,
    {
        Pointer { x: self.x, y: other.y }
    }
}

/// The largest number in a non-empty list.
pub fn largest_number(list: Vec<i32>) -> (r: i32)
    requires
        list@.len() > 0,
    ensures
        list@.contains(r),
        forall|i: int| 0 <= i < list@.len() ==> list@[i] <= r,
{
    let mut largest = list[0];
    let mut idx: usize = 1;
    while idx < list.len()
        invariant
            1 <= idx <= list@.len(),
            list@.contains(largest),
            forall|i: int| 0 <= i < idx ==> list@[i] <= largest,
        decreases list@.len() - idx,
    {
        let number = list[idx];
        if number > largest {
            largest = number;
        }
        idx += 1;
    }
    largest
}

/// The largest character in a non-empty list.
pub fn largest_char(list: &Vec<char>) -> (r: char)
    requires
        list@.len() > 0,
    ensures
        list@.contains(r),
        forall|i: int| 0 <= i < list@.len() ==> list@[i] <= r,
{
    let mut largest = list[0];
    let mut idx: usize = 1;
    while idx < list.len()
        invariant
            1 <= idx <= list@.len(),
            list@.contains(largest),
            forall|i: int| 0 <= i < idx ==> list@[i] <= largest,
        decreases list@.len() - idx,
    {
        let item = list[idx];
        if item > largest {
            largest = item;
        }
        idx += 1;
    }
    largest
}

/// Whether the type's comparison behaves as a strict order on the `Greater`
/// outcome: transitive, and never ranking a value above itself.
pub open spec fn gt_strict<T: PartialOrd>() -> bool {
    &&& forall|a: T, b: T, c: T|
        #![trigger a.partial_cmp_spec(&b), b.partial_cmp_spec(&c)]
        a.partial_cmp_spec(&b) == Some(Ordering::Greater) && b.partial_cmp_spec(&c) == Some(
            Ordering::Greater,
        ) ==> a.partial_cmp_spec(&c) == Some(Ordering::Greater)
    &&& forall|a: T| #[trigger] a.partial_cmp_spec(&a) != Some(Ordering::Greater)
}

/// An element of a non-empty list that no element of the list exceeds,
/// whenever the element type's comparison is specified and strict.
pub fn get_largest<T: PartialOrd + Copy>(list: Vec<T>) -> (r: T)
    requires
        list@.len() > 0,
    ensures
        exists|i: int| 0 <= i < list@.len() && r == list@[i],
        T::obeys_partial_cmp_spec() && gt_strict::<T>() ==> forall|i: int|
            0 <= i < list@.len() ==> (#[trigger] list@[i].partial_cmp_spec(&r)) != Some(
                Ordering::Greater,
            ),
{
    let mut largest = list[0];
    let mut idx: usize = 1;
    while idx < list.len()
        invariant
            1 <= idx <= list@.len(),
            exists|k: int| 0 <= k < idx && largest == list@[k],
            T::obeys_partial_cmp_spec() && gt_strict::<T>() ==> forall|i: int|
                0 <= i < idx ==> (#[trigger] list@[i].partial_cmp_spec(&largest)) != Some(
                    Ordering::Greater,
                ),
        decreases list@.len() - idx,
    {
        let item = list[idx];
        if item > largest {
            largest = item;
        }
        idx += 1;
    }
    largest
}

} // verus!
