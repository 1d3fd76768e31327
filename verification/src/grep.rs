//! Line search: split a text into lines and keep those that contain a query
//! string, together with the configuration record of the command-line tool
//! built around it.

use vstd::prelude::*;
use vstd::string::StrSliceExecFns;
use crate::text::first_newline;
use crate::text::lemma_first_newline_bounds;
use crate::text::lemma_first_newline_is;
use crate::text::strip_return;

verus! {

/// What the line-search tool was asked to do: look for `query` in the file
/// at `file_path`.
pub struct Config {
    pub query: String,
    pub file_path: String,
}

impl Config {
    /// Read the query and the file path out of the argument list (whose
    /// first entry is the program name). Fails, and says so, when fewer than
    /// two arguments follow the program name; otherwise the second and third
    /// entries become the query and the file path.
    pub fn build(args: &[String]) -> (r: Result<Config, &'static str>)
        ensures
            args@.len() < 3 ==> r is Err,
            args@.len() >= 3 ==> (r matches Ok(config) && config.query@ == args@[1]@
                && config.file_path@ == args@[2]@),
    {
        if args.len() < 3 {
            return Err("Not enough arguments");
        }
        let query = args[1].clone();
        let file_path = args[2].clone();
        Ok(Config { query, file_path })
    }
}

/// The lines of a text: split at every newline, each line stripped of one
/// trailing carriage return, and no empty final line when the text ends with
/// a newline. The empty text has no lines.
pub open spec fn split_lines(s: Seq<char>) -> Seq<Seq<char>>
    decreases s.len(),
    via split_lines_decreases
{
    if s.len() == 0 {
        Seq::empty()
    } else {
        let k = first_newline(s);
        if k == s.len() {
            seq![strip_return(s)]
        } else {
            seq![strip_return(s.take(k))] + split_lines(s.skip(k + 1))
        }
    }
}

#[via_fn]
proof fn split_lines_decreases(s: Seq<char>) {
    lemma_first_newline_bounds(s);
}

/// Whether `needle` occurs in `hay` starting at position `i`.
pub open spec fn contains_at(hay: Seq<char>, needle: Seq<char>, i: int) -> bool {
    &&& 0 <= i
    &&& i + needle.len() <= hay.len()
    &&& hay.subrange(i, i + needle.len()) == needle
}

/// Whether `needle` occurs anywhere in `hay`.
pub open spec fn contains_text(hay: Seq<char>, needle: Seq<char>) -> bool {
    exists|i: int| contains_at(hay, needle, i)
}

/// Whether `needle` occurs in `hay` as a contiguous substring.
pub fn contains_str(hay: &str, needle: &str) -> (found: bool)
    ensures
        found == contains_text(hay@, needle@),
{
    let hay_len = hay.unicode_len();
    let needle_len = needle.unicode_len();
    if needle_len == 0 {
        proof {
            assert(hay@.subrange(0, 0) =~= needle@);
            assert(contains_at(hay@, needle@, 0));
        }
        return true;
    }
    if needle_len > hay_len {
        proof {
            assert(forall|i: int| !contains_at(hay@, needle@, i));
        }
        return false;
    }
    let mut i: usize = 0;
    while i <= hay_len - needle_len
        invariant
            hay_len == hay@.len(),
            needle_len == needle@.len(),
            1 <= needle_len <= hay_len,
            i <= hay_len - needle_len + 1,
            forall|t: int| 0 <= t < i ==> !contains_at(hay@, needle@, t),
        decreases hay_len - needle_len + 1 - i,
    {
        let mut j: usize = 0;
        let mut still_matches = true;
        while still_matches && j < needle_len
            invariant
                hay_len == hay@.len(),
                needle_len == needle@.len(),
                i + needle_len <= hay_len,
                j <= needle_len,
                still_matches ==> forall|t: int| 0 <= t < j ==> hay@[i + t] == needle@[t],
                !still_matches ==> !contains_at(hay@, needle@, i as int),
            decreases needle_len - j + (if still_matches {
                1int
            } else {
                0int
            }),
        {
            if hay.get_char(i + j) != needle.get_char(j) {
                proof {
                    assert(hay@.subrange(i as int, i + needle@.len())[j as int] == hay@[i + j]);
                }
                still_matches = false;
            } else {
                j = j + 1;
            }
        }
        if still_matches {
            proof {
                assert(hay@.subrange(i as int, i + needle@.len()) =~= needle@);
                assert(contains_at(hay@, needle@, i as int));
            }
            return true;
        }
        i = i + 1;
    }
    proof {
        assert forall|t: int| !contains_at(hay@, needle@, t) by {
            if t >= i {
                assert(t + needle@.len() > hay@.len());
            }
        }
    }
    false
}

/// Appending one line to a batch extends the kept part by that line when the
/// line contains the query, and leaves it alone otherwise.
proof fn lemma_filter_push(
    lines: Seq<Seq<char>>,
    line: Seq<char>,
    needle: Seq<char>,
)
    ensures
        lines.push(line).filter(|l: Seq<char>| contains_text(l, needle)) == lines.filter(
            |l: Seq<char>| contains_text(l, needle),
        ) + (if contains_text(line, needle) {
            seq![line]
        } else {
            Seq::<Seq<char>>::empty()
        }),
{
    reveal(Seq::filter);
    let pred = |l: Seq<char>| contains_text(l, needle);
    assert(lines.push(line).drop_last() =~= lines);
    if pred(line) {
        assert(lines.push(line).filter(pred) =~= lines.filter(pred) + seq![line]);
    } else {
        assert(lines.push(line).filter(pred) =~= lines.filter(pred));
    }
}

/// Search `contents` line by line: the result is exactly the lines that
/// contain `query`, in their original order.
pub fn search<'a>(query: &str, contents: &'a str) -> (results: Vec<&'a str>)
    ensures
        results@.map_values(|line: &str| line@) == split_lines(contents@).filter(
            |l: Seq<char>| contains_text(l, query@),
        ),
{
    let pred = Ghost(|l: Seq<char>| contains_text(l, query@));
    let mut results: Vec<&'a str> = Vec::new();
    let n = contents.unicode_len();
    let mut pos: usize = 0;
    let ghost mut seen: Seq<Seq<char>> = Seq::empty();
    proof {
        assert(contents@.skip(0) =~= contents@);
        assert(seen + split_lines(contents@) =~= split_lines(contents@));
        assert(results@.map_values(|line: &str| line@) =~= seen.filter(pred@));
    }
    while pos < n
        invariant
            n == contents@.len(),
            pos <= n,
            split_lines(contents@) == seen + split_lines(contents@.skip(pos as int)),
            results@.map_values(|line: &str| line@) == seen.filter(pred@),
            pred@ == (|l: Seq<char>| contains_text(l, query@)),
        decreases n - pos,
    {
        let ghost rest = contents@.skip(pos as int);
        // Find the end of the current line.
        let mut line_end: usize = pos;
        while line_end < n && contents.get_char(line_end) != '\n'
            invariant
                n == contents@.len(),
                pos <= line_end <= n,
                forall|t: int| pos <= t < line_end ==> contents@[t] != '\n',
            decreases n - line_end,
        {
            line_end = line_end + 1;
        }
        proof {
            assert forall|t: int| 0 <= t < line_end - pos implies rest[t] != '\n' by {
                assert(rest[t] == contents@[pos + t]);
            }
            if line_end < n {
                assert(rest[line_end - pos] == contents@[line_end as int]);
            }
            lemma_first_newline_is(rest, line_end - pos);
        }
        // Strip one trailing carriage return.
        let stripped_end: usize = if line_end > pos && contents.get_char(line_end - 1) == '\r' {
            line_end - 1
        } else {
            line_end
        };
        let line: &str = contents.substring_char(pos, stripped_end);
        proof {
            assert(rest.take(line_end - pos) =~= contents@.subrange(
                pos as int,
                line_end as int,
            ));
            assert(strip_return(rest.take(line_end - pos)) =~= contents@.subrange(
                pos as int,
                stripped_end as int,
            ));
            if line_end == n {
                assert(rest.take(line_end - pos) =~= rest);
                assert(split_lines(rest) == seq![strip_return(rest)]);
                assert(split_lines(contents@.skip(n as int)) =~= Seq::<Seq<char>>::empty());
            } else {
                assert(contents@.skip(line_end + 1) =~= rest.skip(line_end - pos + 1));
            }
        }
        if contains_str(line, query) {
            proof {
                lemma_filter_push(seen, line@, query@);
                assert(results@.push(line).map_values(|l: &str| l@) =~= results@.map_values(
                    |l: &str| l@,
                ).push(line@));
                assert(seen.filter(pred@) + seq![line@] =~= seen.filter(pred@).push(line@));
            }
            results.push(line);
        } else {
            proof {
                lemma_filter_push(seen, line@, query@);
                assert(seen.filter(pred@) + Seq::<Seq<char>>::empty() =~= seen.filter(pred@));
            }
        }
        let next_pos: usize = if line_end < n {
            line_end + 1
        } else {
            n
        };
        proof {
            let seen_before = seen;
            seen = seen.push(line@);
            assert(seen =~= seen_before + seq![line@]);
            if line_end == n {
                assert(split_lines(rest) == seq![line@]);
                assert(contents@.skip(n as int) =~= Seq::<char>::empty());
                assert(split_lines(contents@.skip(n as int)) =~= Seq::<Seq<char>>::empty());
                assert((seen_before + seq![line@]) + Seq::<Seq<char>>::empty() =~= seen_before
                    + seq![line@]);
            } else {
                assert(split_lines(rest) == seq![line@] + split_lines(
                    contents@.skip(line_end + 1),
                ));
                assert(seen_before + (seq![line@] + split_lines(contents@.skip(line_end + 1)))
                    =~= (seen_before + seq![line@]) + split_lines(
                    contents@.skip(line_end + 1),
                ));
            }
        }
        pos = next_pos;
    }
    proof {
        if pos == n {
            assert(contents@.skip(n as int) =~= Seq::<char>::empty());
            assert(split_lines(contents@.skip(pos as int)) =~= Seq::<Seq<char>>::empty());
        }
        assert(seen + Seq::<Seq<char>>::empty() =~= seen);
    }
    results
}

} // verus!
