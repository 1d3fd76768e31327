//! A fixed-size worker pool: a bounded set of long-lived worker threads that
//! consume units of work from a shared bounded channel and run them to
//! completion, with deterministic, leak-free shutdown.
//!
//! The crate also carries a handful of small verified utilities that grew up
//! around the pool: a line search, word and line helpers, and assorted
//! data types.

use vstd::prelude::*;

pub mod aggregator;
pub mod channel;
pub mod enums;
pub mod funcs;
pub mod generics;
pub mod grep;
pub mod inventory;
pub mod oop;
pub mod ownership;
pub mod pool;
pub mod queue;
pub mod restaurant;
pub mod structs;
pub mod text;

verus! {

/// Sum of two machine-sized integers.
pub fn add(left: usize, right: usize) -> (r: usize)
    requires
        left + right <= usize::MAX,
    ensures
        r == left + right,
{
    left + right
}

/// Successor of a 32-bit integer.
pub fn add_one(x: i32) -> (r: i32)
    requires
        x < i32::MAX,
    ensures
        r == x + 1,
{
    x + 1
}

} // verus!
