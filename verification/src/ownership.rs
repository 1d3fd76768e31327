//! Hand-offs and borrows of owned strings and plain values.

use vstd::prelude::*;
use vstd::string::StrSliceExecFns;

verus! {

/// Take a plain value by copy; the caller keeps its own.
pub fn makes_copy(some_int: i32) {
    let _ = some_int;
}

/// Produce an owned string for the caller to keep.
pub fn gives_ownership() -> (s: String)
    ensures
        s@ == "hello"@,
{
    "hello".to_owned()
}

/// Take ownership of a string and give the very same string back.
pub fn takes_and_gives_back(some_str: String) -> (r: String)
    ensures
        r == some_str,
{
    some_str
}

/// The length of a borrowed string, in characters; the caller keeps
/// ownership.
pub fn calc_length(s: &String) -> (len: usize)
    ensures
        len == s@.len(),
{
    s.as_str().unicode_len()
}

/// Append a greeting tail through a mutable borrow.
pub fn change(some_string: &mut String)
    ensures
        final(some_string)@ == old(some_string)@ + ", world"@,
{
    some_string.append(", world");
}

} // verus!
