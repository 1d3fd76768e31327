//! Generic data and functions: the largest element of a slice, mixed-up
//! points, and an excerpt that rates its own importance.

use vstd::prelude::*;
use vstd::std_specs::cmp::PartialOrdSpec;
use std::cmp::Ordering;

verus! {

/// The index that a left-to-right scan for the largest element reaches after
/// examining positions `0..=i`: each later element replaces the running
/// winner only when it compares strictly greater.
pub open spec fn running_largest<T: PartialOrd>(s: Seq<T>, i: int) -> int
    decreases i,
{
    if i <= 0 {
        0
    } else {
        let best = running_largest(s, i - 1);
        if s[i].partial_cmp_spec(&s[best]) == Some(Ordering::Greater) {
            i
        } else {
            best
        }
    }
}

/// The largest element of a non-empty slice: the winner of a left-to-right
/// scan in which an element takes over only by comparing strictly greater
/// than the running winner.
pub fn largest<T: PartialOrd>(list: &[T]) -> (r: &T)
    requires
        list@.len() >= 1,
        <T as PartialOrdSpec>::obeys_partial_cmp_spec(),
    ensures
        *r == list@[running_largest(list@, list@.len() - 1)],
{
    let mut best: usize = 0;
    let mut i: usize = 1;
    while i < list.len()
        invariant
            <T as PartialOrdSpec>::obeys_partial_cmp_spec(),
            1 <= i <= list@.len(),
            best < i,
            best == running_largest(list@, i - 1),
        decreases list@.len() - i,
    {
        if &list[i] > &list[best] {
            best = i;
        }
        i = i + 1;
    }
    &list[best]
}

/// A point whose coordinates may have different types.
pub struct Point<T, U> {
    pub x: T,
    pub y: U,
}

impl<T, U> Point<T, U> {
    /// A borrow of the first coordinate.
    pub fn x(&self) -> (r: &T)
        ensures
            *r == self.x,
    {
        &self.x
    }
}

impl<X1, Y1> Point<X1, Y1> {
    /// Cross two points: the first coordinate of `self` with the second
    /// coordinate of `other`.
    pub fn mixup<X2, Y2>(self, other: Point<X2, Y2>) -> (r: Point<X1, Y2>)
        ensures
            r.x == self.x,
            r.y == other.y,
    {
        Point { x: self.x, y: other.y }
    }
}

/// A quotation held onto for dear life.
pub struct ImportantExcerpt<'a> {
    pub part: &'a str,
}

impl<'a> ImportantExcerpt<'a> {
    /// How important the excerpt is. Always three.
    pub fn level(&self) -> (r: i32)
        ensures
            r == 3,
    {
        3
    }
}

} // verus!
