//! Locating the frontmatter block at the start of a note.

use vstd::prelude::*;
use vstd::std_specs::iter::IteratorSpec;
use vstd::string::StrSliceExecFns;
use crate::text::{trim, trimmed};

verus! {

broadcast use vstd::string::group_string_axioms;

/// The marker `---` occurs in `s` at index `i`.
pub open spec fn marker_at(s: Seq<char>, i: int) -> bool {
    &&& 0 <= i
    &&& i + 3 <= s.len()
    &&& s[i] == '-'
    &&& s[i + 1] == '-'
    &&& s[i + 2] == '-'
}

/// The least index at or after `start` where the marker occurs, if any.
pub open spec fn first_marker_from(s: Seq<char>, start: int) -> Option<int>
    decreases s.len() - start,
{
    if start < 0 || start + 3 > s.len() {
        None
    } else if marker_at(s, start) {
        Some(start)
    } else {
        first_marker_from(s, start + 1)
    }
}

/// What `first_marker_from` finds is an occurrence of the marker at or after `start`.
pub proof fn lemma_first_marker_found(s: Seq<char>, start: int)
    ensures
        first_marker_from(s, start) matches Some(i) ==> start <= i && marker_at(s, i),
    decreases s.len() - start,
{
    if start >= 0 && start + 3 <= s.len() && !marker_at(s, start) {
        lemma_first_marker_found(s, start + 1);
    }
}

/// The trimmed frontmatter block and the trimmed body of `s`.
///
/// `s` is cut at the first two non-overlapping occurrences of the marker. A
/// block exists only where the first cut stands at index 0; the body is then
/// what follows the second cut, absent where there is no second cut. Without a
/// block the body is all of `s`.
pub open spec fn frontmatter_parts(s: Seq<char>) -> (Option<Seq<char>>, Option<Seq<char>>) {
    if marker_at(s, 0) {
        match first_marker_from(s, 3) {
            Some(j) => (Some(trimmed(s.subrange(3, j))), Some(trimmed(s.subrange(j + 3, s.len() as int)))),
            None => (Some(trimmed(s.subrange(3, s.len() as int))), None),
        }
    } else {
        (None, Some(trimmed(s)))
    }
}

/// The view of an optional string.
pub open spec fn opt_view(o: Option<String>) -> Option<Seq<char>> {
    match o {
        Some(x) => Some(x@),
        None => None,
    }
}

/// The characters of `s`, in order.
fn chars_of(s: &str) -> (v: Vec<char>)
    ensures
        v@ == s@,
{
    let n = s.unicode_len();
    let mut it = s.chars();
    let mut v: Vec<char> = Vec::new();
    let mut i: usize = 0;
    while i < n
        invariant
            i <= n,
            n == s@.len(),
            v@ == s@.subrange(0, i as int),
            it.remaining() == s@.subrange(i as int, n as int),
        decreases n - i,
    {
        let c = it.next();
        match c {
            Some(ch) => {
                v.push(ch);
            },
            None => {},
        }
        i = i + 1;
    }
    assert(v@ =~= s@);
    v
}

/// The first index at or after `start` where the marker occurs in `v`.
fn find_marker(v: &Vec<char>, start: usize) -> (r: Option<usize>)
    requires
        start <= v@.len(),
    ensures
        match r {
            Some(i) => first_marker_from(v@, start as int) == Some(i as int),
            None => first_marker_from(v@, start as int) is None,
        },
{
    let mut i: usize = start;
    while i < v.len() && v.len() - i >= 3
        invariant
            start <= i <= v@.len(),
            first_marker_from(v@, start as int) == first_marker_from(v@, i as int),
        decreases v@.len() - i,
    {
        if v[i] == '-' && v[i + 1] == '-' && v[i + 2] == '-' {
            return Some(i);
        }
        i = i + 1;
    }
    None
}

/// Splits `content` into its trimmed frontmatter block and its trimmed body.
pub fn extract_frontmatter(content: &str) -> (r: (Option<String>, Option<String>))
    ensures
        (opt_view(r.0), opt_view(r.1)) == frontmatter_parts(content@),
{
    let v = chars_of(content);
    let n = v.len();
    proof {
        lemma_first_marker_found(v@, 0);
        lemma_first_marker_found(v@, 3);
    }
    match find_marker(&v, 0) {
        Some(first) if first == 0 => {
            match find_marker(&v, 3) {
                Some(second) => {
                    let block = trim(content.substring_char(3, second));
                    let body = trim(content.substring_char(second + 3, n));
                    (Some(block.to_string()), Some(body.to_string()))
                },
                None => {
                    let block = trim(content.substring_char(3, n));
                    (Some(block.to_string()), None)
                },
            }
        },
        _ => (None, Some(trim(content).to_string())),
    }
}

} // verus!
