//! Naive character splitting — the parsing discipline of the redirect
//! listener: split on a separator, no decoding, no validation.

use vstd::prelude::*;

verus! {

/// The views of a list of owned strings.
pub open spec fn string_views(v: Seq<String>) -> Seq<Seq<char>> {
    v.map_values(|s: String| s@)
}

/// The views of a list of owned string pairs.
pub open spec fn pair_views(v: Seq<(String, String)>) -> Seq<(Seq<char>, Seq<char>)> {
    v.map_values(|p: (String, String)| (p.0@, p.1@))
}

/// The first index at or after `from` holding `c`, or the length of `s`
/// when no such index exists.
pub open spec fn find_from(s: Seq<char>, c: char, from: int) -> int
    decreases s.len() - from,
{
    if from < 0 || from >= s.len() {
        s.len() as int
    } else if s[from] == c {
        from
    } else {
        find_from(s, c, from + 1)
    }
}

/// A scan that saw no `c` in `[from, found)` and stopped at `found` — at
/// the end or on a `c` — has found `find_from`.
proof fn lemma_find_from(s: Seq<char>, c: char, from: int, found: int)
    requires
        0 <= from <= found <= s.len(),
        forall|j: int| from <= j < found ==> s[j] != c,
        found == s.len() || s[found] == c,
    ensures
        find_from(s, c, from) == found,
    decreases found - from,
{
    if from < found {
        lemma_find_from(s, c, from + 1, found);
    }
}

/// The segments of `s` from `from` on, cut at every `sep`.  Mirrors what
/// `split` yields: adjacent separators and a trailing separator give
/// empty segments, and a sequence without `sep` is one segment.
pub open spec fn split_from(s: Seq<char>, sep: char, from: int) -> Seq<Seq<char>>
    decreases s.len() - from,
    when 0 <= from <= s.len()
    via split_from_decreases
{
    let cut = find_from(s, sep, from);
    if cut >= s.len() {
        seq![s.subrange(from, s.len() as int)]
    } else {
        seq![s.subrange(from, cut)] + split_from(s, sep, cut + 1)
    }
}

#[via_fn]
proof fn split_from_decreases(s: Seq<char>, sep: char, from: int) {
    lemma_find_from_bounds(s, sep, from);
}

/// All segments of `s`, cut at every `sep`.
pub open spec fn split_on(s: Seq<char>, sep: char) -> Seq<Seq<char>> {
    split_from(s, sep, 0)
}

/// `find_from` stays within `[from, s.len()]` and lands on `sep` unless
/// it hits the end.
proof fn lemma_find_from_bounds(s: Seq<char>, c: char, from: int)
    requires
        0 <= from <= s.len(),
    ensures
        from <= find_from(s, c, from) <= s.len(),
    decreases s.len() - from,
{
    if from < s.len() && s[from] != c {
        lemma_find_from_bounds(s, c, from + 1);
    }
}

/// The first index at or after `from` holding `sep`, or the length of
/// `s` when there is none.
fn find_char(s: &str, sep: char, from: usize) -> (r: usize)
    requires
        from <= s@.len(),
    ensures
        from <= r <= s@.len(),
        r == find_from(s@, sep, from as int),
        r < s@.len() ==> s@[r as int] == sep,
{
    let n = s.unicode_len();
    let mut i: usize = from;
    while i < n
        invariant
            from <= i <= n,
            n == s@.len(),
            forall|j: int| from <= j < i ==> s@[j] != sep,
        decreases n - i,
    {
        if s.get_char(i) == sep {
            proof {
                lemma_find_from(s@, sep, from as int, i as int);
            }
            return i;
        }
        i = i + 1;
    }
    proof {
        lemma_find_from(s@, sep, from as int, n as int);
    }
    n
}

/// Splits the tail of `s` that starts at `from`, cutting at every `sep`.
fn split_str_from(s: &str, sep: char, from: usize) -> (r: Vec<String>)
    requires
        from <= s@.len(),
    ensures
        string_views(r@) == split_from(s@, sep, from as int),
    decreases s@.len() - from,
{
    let n = s.unicode_len();
    let cut = find_char(s, sep, from);
    let segment: String = s.substring_char(from, cut).to_owned();
    if cut == n {
        let mut out: Vec<String> = Vec::new();
        out.push(segment);
        proof {
            assert(string_views(out@) =~= split_from(s@, sep, from as int));
        }
        out
    } else {
        let mut out = split_str_from(s, sep, cut + 1);
        out.insert(0, segment);
        proof {
            assert(string_views(out@) =~= seq![segment@] + split_from(
                s@,
                sep,
                cut + 1 as int,
            ));
            assert(string_views(out@) =~= split_from(s@, sep, from as int));
        }
        out
    }
}

/// Splits `s`, cutting at every `sep`.
pub fn split_str(s: &str, sep: char) -> (r: Vec<String>)
    ensures
        string_views(r@) == split_on(s@, sep),
{
    split_str_from(s, sep, 0)
}

} // verus!
