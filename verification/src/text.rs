//! Small text utilities over words and lines.

use vstd::prelude::*;
use vstd::string::StrSliceExecFns;

verus! {

/// The index of the first space in `s`, or `s.len()` when there is none.
pub open spec fn first_space(s: Seq<char>) -> int
    decreases s.len(),
{
    if s.len() == 0 {
        0
    } else if s[0] == ' ' {
        0
    } else {
        1 + first_space(s.drop_first())
    }
}

/// `first_space` really is the first space: it is the unique position bounded
/// by the length, preceded by no space, and sitting on a space unless the
/// string has none.
pub proof fn lemma_first_space_is(s: Seq<char>, k: int)
    requires
        0 <= k <= s.len(),
        forall|t: int| 0 <= t < k ==> s[t] != ' ',
        k < s.len() ==> s[k] == ' ',
    ensures
        first_space(s) == k,
    decreases s.len(),
{
    if s.len() != 0 && s[0] != ' ' {
        lemma_first_space_is(s.drop_first(), k - 1);
    }
}

/// The word before the first space: everything up to (not including) the
/// first space, or the whole string when it has no space.
pub fn first_word(s: &String) -> (word: &str)
    ensures
        word@ == s@.take(first_space(s@)),
{
    better_first_word(s.as_str())
}

/// As [`first_word`], for any borrowed string slice.
pub fn better_first_word(s: &str) -> (word: &str)
    ensures
        word@ == s@.take(first_space(s@)),
{
    let n = s.unicode_len();
    let mut i: usize = 0;
    while i < n
        invariant
            i <= n,
            n == s@.len(),
            forall|t: int| 0 <= t < i ==> s@[t] != ' ',
        decreases n - i,
    {
        if s.get_char(i) == ' ' {
            proof {
                lemma_first_space_is(s@, i as int);
            }
            return s.substring_char(0, i);
        }
        i = i + 1;
    }
    proof {
        lemma_first_space_is(s@, n as int);
        assert(s@.take(n as int) =~= s@);
    }
    s
}

/// The character index of the first space, or the length in characters when
/// the string has no space.
pub fn first_space_index(s: &String) -> (i: usize)
    ensures
        i == first_space(s@),
{
    let slice = s.as_str();
    let n = slice.unicode_len();
    let mut i: usize = 0;
    while i < n
        invariant
            i <= n,
            slice@ == s@,
            n == slice@.len(),
            forall|t: int| 0 <= t < i ==> slice@[t] != ' ',
        decreases n - i,
    {
        if slice.get_char(i) == ' ' {
            proof {
                lemma_first_space_is(slice@, i as int);
            }
            return i;
        }
        i = i + 1;
    }
    proof {
        lemma_first_space_is(slice@, n as int);
    }
    n
}

/// Whichever of the two strings is longer in characters, ties going to the
/// second.
pub fn longest<'a>(str1: &'a str, str2: &'a str) -> (r: &'a str)
    ensures
        r@ == (if str1@.len() > str2@.len() {
            str1@
        } else {
            str2@
        }),
{
    if str1.unicode_len() > str2.unicode_len() {
        return str1;
    }
    str2
}

/// The index of the first newline in `s`, or `s.len()` when there is none.
pub open spec fn first_newline(s: Seq<char>) -> int
    decreases s.len(),
{
    if s.len() == 0 {
        0
    } else if s[0] == '\n' {
        0
    } else {
        1 + first_newline(s.drop_first())
    }
}

/// The first newline lies within the string's bounds.
pub proof fn lemma_first_newline_bounds(s: Seq<char>)
    ensures
        0 <= first_newline(s) <= s.len(),
    decreases s.len(),
{
    if s.len() != 0 && s[0] != '\n' {
        lemma_first_newline_bounds(s.drop_first());
    }
}

/// `first_newline` really is the first newline: it is the position bounded
/// by the length, preceded by no newline, and sitting on a newline unless
/// the string has none.
pub proof fn lemma_first_newline_is(s: Seq<char>, k: int)
    requires
        0 <= k <= s.len(),
        forall|t: int| 0 <= t < k ==> s[t] != '\n',
        k < s.len() ==> s[k] == '\n',
    ensures
        first_newline(s) == k,
    decreases s.len(),
{
    if s.len() != 0 && s[0] != '\n' {
        lemma_first_newline_is(s.drop_first(), k - 1);
    }
}

/// A line with one trailing carriage return, if any, taken off.
pub open spec fn strip_return(line: Seq<char>) -> Seq<char> {
    if line.len() > 0 && line.last() == '\r' {
        line.drop_last()
    } else {
        line
    }
}

/// The last character of the first line of `text`: the line runs to the
/// first newline (with one trailing carriage return taken off), and an empty
/// text, or an empty first line, has no such character.
pub fn last_char_of_first_line(text: &str) -> (r: Option<char>)
    ensures
        text@.len() == 0 ==> r is None,
        text@.len() > 0 ==> {
            let line = strip_return(text@.take(first_newline(text@)));
            &&& line.len() == 0 ==> r is None
            &&& line.len() > 0 ==> r == Some(line.last())
        },
{
    let n = text.unicode_len();
    if n == 0 {
        return None;
    }
    let mut line_end: usize = 0;
    while line_end < n && text.get_char(line_end) != '\n'
        invariant
            n == text@.len(),
            line_end <= n,
            forall|t: int| 0 <= t < line_end ==> text@[t] != '\n',
        decreases n - line_end,
    {
        line_end = line_end + 1;
    }
    proof {
        lemma_first_newline_is(text@, line_end as int);
    }
    let stripped_end: usize = if line_end > 0 && text.get_char(line_end - 1) == '\r' {
        line_end - 1
    } else {
        line_end
    };
    proof {
        assert(strip_return(text@.take(line_end as int)) =~= text@.take(stripped_end as int));
    }
    if stripped_end == 0 {
        None
    } else {
        Some(text.get_char(stripped_end - 1))
    }
}

} // verus!
