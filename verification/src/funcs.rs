//! Functions as values: applying a given function twice, and producing a
//! closure to hand out.

use vstd::prelude::*;

verus! {

/// Successor of a 32-bit integer.
pub fn plus_one(x: i32) -> (r: i32)
    requires
        x < i32::MAX,
    ensures
        r == x + 1,
{
    x + 1
}

/// Apply `f` to `arg` twice and add the two answers.
pub fn do_twice<F: Fn(i32) -> i32>(f: F, arg: i32) -> (r: i32)
    requires
        call_requires(f, (arg,)),
        forall|r1: i32, r2: i32|
            call_ensures(f, (arg,), r1) && call_ensures(f, (arg,), r2) ==> i32::MIN <= r1 + r2
                <= i32::MAX,
    ensures
        exists|r1: i32, r2: i32|
            {
                &&& call_ensures(f, (arg,), r1)
                &&& call_ensures(f, (arg,), r2)
                &&& r == r1 + r2
            },
{
    let first = f(arg);
    let second = f(arg);
    first + second
}

/// A closure that adds one: callable on anything below the maximum, and
/// answering exactly one more than its argument.
pub fn returns_closure() -> (f: impl Fn(i32) -> i32)
    ensures
        forall|x: i32| x < i32::MAX ==> #[trigger] call_requires(f, (x,)),
        forall|x: i32, r: i32| #[trigger] call_ensures(f, (x,), r) ==> r == x + 1,
{
    (|x: i32| -> (r: i32)
        requires
            x < i32::MAX,
        ensures
            r == x + 1,
        { x + 1 })
}

} // verus!
