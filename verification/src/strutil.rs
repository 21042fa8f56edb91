//! Splitting and trimming of character sequences, the ground the
//! configuration parser stands on.

use vstd::prelude::*;
use vstd::string::StrSliceExecFns;

verus! {

/// Whitespace that is trimmed away around configuration tokens.
pub open spec fn is_space(c: char) -> bool {
    c == ' ' || c == '\t' || c == '\r'
}

/// The first position at or after `start` holding `sep`, or the length of
/// `t` when no such position exists.
pub open spec fn sep_end(t: Seq<char>, sep: char, start: int) -> int
    decreases t.len() - start,
{
    if start < 0 {
        0
    } else if start >= t.len() || t[start] == sep {
        start
    } else {
        sep_end(t, sep, start + 1)
    }
}

pub proof fn lemma_sep_end_bounds(t: Seq<char>, sep: char, start: int)
    requires
        0 <= start <= t.len(),
    ensures
        start <= sep_end(t, sep, start) <= t.len(),
        sep_end(t, sep, start) < t.len() ==> t[sep_end(t, sep, start)] == sep,
        forall|k: int| start <= k < sep_end(t, sep, start) ==> t[k] != sep,
    decreases t.len() - start,
{
    if start < t.len() && t[start] != sep {
        lemma_sep_end_bounds(t, sep, start + 1);
    }
}

/// A scan that saw no separator in `[start, e)` and stopped at the end or on
/// a separator has found exactly `sep_end`.
pub proof fn lemma_sep_end_of_scan(t: Seq<char>, sep: char, start: int, e: int)
    requires
        0 <= start <= e <= t.len(),
        forall|k: int| start <= k < e ==> t[k] != sep,
        e == t.len() || t[e] == sep,
    ensures
        sep_end(t, sep, start) == e,
    decreases e - start,
{
    if start < e {
        lemma_sep_end_of_scan(t, sep, start + 1, e);
    }
}

/// The pieces of `t` after `start`, cut at every occurrence of `sep`.
pub open spec fn spec_split_from(t: Seq<char>, sep: char, start: int) -> Seq<Seq<char>>
    decreases t.len() - start,
    via spec_split_from_decreases
{
    if start < 0 || start > t.len() {
        Seq::empty()
    } else {
        let e = sep_end(t, sep, start);
        if e >= t.len() {
            seq![t.subrange(start, t.len() as int)]
        } else {
            seq![t.subrange(start, e)] + spec_split_from(t, sep, e + 1)
        }
    }
}

#[via_fn]
proof fn spec_split_from_decreases(t: Seq<char>, sep: char, start: int) {
    if 0 <= start <= t.len() {
        lemma_sep_end_bounds(t, sep, start);
    }
}

/// The pieces of `t`, cut at every occurrence of `sep`. Always at least one
/// piece; separators at the edges produce empty pieces.
pub open spec fn spec_split(t: Seq<char>, sep: char) -> Seq<Seq<char>> {
    spec_split_from(t, sep, 0)
}

/// Splits a string at every occurrence of `sep`.
pub fn split_str(s: &str, sep: char) -> (parts: Vec<String>)
    ensures
        parts@.map_values(|p: String| p@) == spec_split(s@, sep),
        parts@.len() > 0,
{
    let n = s.unicode_len();
    let mut parts: Vec<String> = Vec::new();
    let mut start: usize = 0;
    loop
        invariant
            start <= n,
            n == s@.len(),
            spec_split(s@, sep) == parts@.map_values(|p: String| p@) + spec_split_from(
                s@,
                sep,
                start as int,
            ),
        decreases n - start,
    {
        let mut e: usize = start;
        while e < n && s.get_char(e) != sep
            invariant
                start <= e <= n,
                n == s@.len(),
                forall|k: int| start <= k < e ==> s@[k] != sep,
            decreases n - e,
        {
            e = e + 1;
        }
        proof {
            lemma_sep_end_of_scan(s@, sep, start as int, e as int);
        }
        let ghost pv = parts@.map_values(|p: String| p@);
        let piece = s.substring_char(start, e).to_owned();
        parts.push(piece);
        proof {
            assert(parts@.map_values(|p: String| p@) =~= pv.push(s@.subrange(
                start as int,
                e as int,
            )));
        }
        if e == n {
            proof {
                assert(spec_split_from(s@, sep, start as int) =~= seq![
                    s@.subrange(start as int, e as int),
                ]);
                assert(parts@.map_values(|p: String| p@) =~= spec_split(s@, sep));
            }
            return parts;
        }
        proof {
            assert(spec_split_from(s@, sep, start as int) == seq![
                s@.subrange(start as int, e as int),
            ] + spec_split_from(s@, sep, e + 1));
            assert(pv + spec_split_from(s@, sep, start as int) =~= parts@.map_values(
                |p: String| p@,
            ) + spec_split_from(s@, sep, e + 1));
        }
        start = e + 1;
    }
}

/// The first position at or after `i` holding something besides whitespace.
pub open spec fn skip_spaces(t: Seq<char>, i: int) -> int
    decreases t.len() - i,
{
    if i < 0 {
        0
    } else if i < t.len() && is_space(t[i]) {
        skip_spaces(t, i + 1)
    } else {
        i
    }
}

pub proof fn lemma_skip_spaces_bounds(t: Seq<char>, i: int)
    requires
        0 <= i <= t.len(),
    ensures
        i <= skip_spaces(t, i) <= t.len(),
        skip_spaces(t, i) < t.len() ==> !is_space(t[skip_spaces(t, i)]),
        forall|k: int| i <= k < skip_spaces(t, i) ==> is_space(t[k]),
    decreases t.len() - i,
{
    if i < t.len() && is_space(t[i]) {
        lemma_skip_spaces_bounds(t, i + 1);
    }
}

/// The position just past the last non-whitespace character strictly before
/// `j`.
pub open spec fn rskip_spaces(t: Seq<char>, j: int) -> int
    decreases j,
{
    if j > t.len() {
        t.len() as int
    } else if j > 0 && is_space(t[j - 1]) {
        rskip_spaces(t, j - 1)
    } else {
        j
    }
}

pub proof fn lemma_rskip_spaces_bounds(t: Seq<char>, j: int)
    requires
        0 <= j <= t.len(),
    ensures
        0 <= rskip_spaces(t, j) <= j,
        rskip_spaces(t, j) > 0 ==> !is_space(t[rskip_spaces(t, j) - 1]),
        forall|k: int| rskip_spaces(t, j) <= k < j ==> is_space(t[k]),
    decreases j,
{
    if j > 0 && is_space(t[j - 1]) {
        lemma_rskip_spaces_bounds(t, j - 1);
    }
}

/// `t` with the surrounding whitespace removed.
pub open spec fn spec_trim(t: Seq<char>) -> Seq<char> {
    let a = skip_spaces(t, 0);
    let b = rskip_spaces(t, t.len() as int);
    if a <= b {
        t.subrange(a, b)
    } else {
        Seq::empty()
    }
}

/// Removes the surrounding whitespace of a string.
pub fn trim_str(s: &str) -> (r: String)
    ensures
        r@ == spec_trim(s@),
{
    let n = s.unicode_len();
    let mut a: usize = 0;
    while a < n && is_space_char(s.get_char(a))
        invariant
            a <= n,
            n == s@.len(),
            skip_spaces(s@, 0) == skip_spaces(s@, a as int),
        decreases n - a,
    {
        a = a + 1;
    }
    let mut b: usize = n;
    while b > a && is_space_char(s.get_char(b - 1))
        invariant
            a <= b <= n,
            n == s@.len(),
            rskip_spaces(s@, n as int) == rskip_spaces(s@, b as int),
        decreases b,
    {
        b = b - 1;
    }
    proof {
        lemma_skip_spaces_bounds(s@, 0);
        lemma_rskip_spaces_bounds(s@, b as int);
        assert(skip_spaces(s@, 0) == a);
        if b > a {
            assert(rskip_spaces(s@, b as int) == b);
        }
        assert(s@.subrange(a as int, b as int) =~= spec_trim(s@));
    }
    let piece = s.substring_char(a, b);
    piece.to_owned()
}

/// Exec mirror of `is_space`.
pub fn is_space_char(c: char) -> (r: bool)
    ensures
        r == is_space(c),
{
    c == ' ' || c == '\t' || c == '\r'
}

} // verus!
