//! Character-level utilities: turning a `&str` into characters, trimming,
//! finding delimiters, splitting on a delimiter, and comparisons against
//! string literals. Every executable function is proved equal to a spec-level
//! definition, so the decoders above can be specified compositionally.

use vstd::prelude::*;
use vstd::slice::{slice_subrange, slice_to_vec};
use vstd::std_specs::iter::IteratorSpec;

verus! {

broadcast use vstd::string::axiom_spec_iter, vstd::string::next_postcondition;

/// Whitespace stripped from the ends of lines and tokens.
pub open spec fn spec_is_ws(c: char) -> bool {
    c == ' ' || c == '\t' || c == '\r'
}

/// `s` with leading whitespace removed.
pub open spec fn spec_trim_start(s: Seq<char>) -> Seq<char>
    decreases s.len(),
{
    if s.len() > 0 && spec_is_ws(s[0]) {
        spec_trim_start(s.subrange(1, s.len() as int))
    } else {
        s
    }
}

/// `s` with trailing whitespace removed.
pub open spec fn spec_trim_end(s: Seq<char>) -> Seq<char>
    decreases s.len(),
{
    if s.len() > 0 && spec_is_ws(s[s.len() - 1]) {
        spec_trim_end(s.subrange(0, s.len() - 1))
    } else {
        s
    }
}

/// `s` with whitespace removed from both ends.
pub open spec fn spec_trim(s: Seq<char>) -> Seq<char> {
    spec_trim_end(spec_trim_start(s))
}

/// Index of the first occurrence of `d` in `s`, if any.
pub open spec fn spec_find(s: Seq<char>, d: char) -> Option<int>
    decreases s.len(),
{
    if s.len() == 0 {
        None
    } else if s[0] == d {
        Some(0)
    } else {
        match spec_find(s.subrange(1, s.len() as int), d) {
            None => None,
            Some(i) => Some(i + 1),
        }
    }
}

pub proof fn lemma_find_bounds(s: Seq<char>, d: char)
    ensures
        spec_find(s, d) matches Some(i) ==> 0 <= i < s.len() && s[i] == d,
    decreases s.len(),
{
    if s.len() > 0 && s[0] != d {
        lemma_find_bounds(s.subrange(1, s.len() as int), d);
    }
}

/// `spec_find` returns the first position whose prefix holds no delimiter.
pub proof fn lemma_find_at(s: Seq<char>, d: char, i: int)
    requires
        0 <= i <= s.len(),
        forall|k: int| 0 <= k < i ==> s[k] != d,
        i == s.len() || s[i] == d,
    ensures
        spec_find(s, d) == if i == s.len() {
            None::<int>
        } else {
            Some(i)
        },
    decreases i,
{
    if s.len() == 0 {
    } else if i == 0 {
    } else {
        let t = s.subrange(1, s.len() as int);
        lemma_find_at(t, d, i - 1);
    }
}

proof fn lemma_trim_start_at(s: Seq<char>, i: int)
    requires
        0 <= i <= s.len(),
        forall|k: int| 0 <= k < i ==> spec_is_ws(s[k]),
        i == s.len() || !spec_is_ws(s[i]),
    ensures
        spec_trim_start(s) == s.subrange(i, s.len() as int),
    decreases i,
{
    if i == 0 {
        assert(s.subrange(0, s.len() as int) =~= s);
    } else {
        let t = s.subrange(1, s.len() as int);
        lemma_trim_start_at(t, i - 1);
        assert(t.subrange(i - 1, t.len() as int) =~= s.subrange(i, s.len() as int));
    }
}

proof fn lemma_trim_end_at(s: Seq<char>, j: int)
    requires
        0 <= j <= s.len(),
        forall|k: int| j <= k < s.len() ==> spec_is_ws(s[k]),
        j == 0 || !spec_is_ws(s[j - 1]),
    ensures
        spec_trim_end(s) == s.subrange(0, j),
    decreases s.len() - j,
{
    if j == s.len() {
        if s.len() == 0 || !spec_is_ws(s[s.len() - 1]) {
            assert(s.subrange(0, s.len() as int) =~= s);
        } else {
            assert(false);
        }
    } else {
        let t = s.subrange(0, s.len() - 1);
        lemma_trim_end_at(t, j);
        assert(t.subrange(0, j) =~= s.subrange(0, j));
    }
}

/// The characters of `s`, as a vector.
pub fn str_chars(s: &str) -> (r: Vec<char>)
    ensures
        r@ == s@,
{
    let mut it = s.chars();
    let mut out: Vec<char> = Vec::new();
    proof {
        assert(it.remaining() == s@);
    }
    loop
        invariant
            it.obeys_prophetic_iter_laws(),
            it.decrease() is Some,
            out@ + it.remaining() == s@,
        decreases it.decrease()->0,
    {
        match it.next() {
            Some(c) => {
                out.push(c);
            },
            None => {
                return out;
            },
        }
    }
}

fn is_ws(c: char) -> (r: bool)
    ensures
        r == spec_is_ws(c),
{
    c == ' ' || c == '\t' || c == '\r'
}

/// `s` with whitespace removed from both ends.
pub fn trim(s: &[char]) -> (r: &[char])
    ensures
        r@ == spec_trim(s@),
{
    let mut i: usize = 0;
    while i < s.len() && (s[i] == ' ' || s[i] == '\t' || s[i] == '\r')
        invariant
            0 <= i <= s@.len(),
            forall|k: int| 0 <= k < i ==> spec_is_ws(s@[k]),
        decreases s@.len() - i,
    {
        i = i + 1;
    }
    let mut j: usize = s.len();
    while j > i && (s[j - 1] == ' ' || s[j - 1] == '\t' || s[j - 1] == '\r')
        invariant
            i <= j <= s@.len(),
            forall|k: int| j <= k < s@.len() ==> spec_is_ws(s@[k]),
        decreases j,
    {
        j = j - 1;
    }
    proof {
        lemma_trim_start_at(s@, i as int);
        let t = s@.subrange(i as int, s@.len() as int);
        lemma_trim_end_at(t, j - i);
        assert(t.subrange(0, j - i) =~= s@.subrange(i as int, j as int));
    }
    slice_subrange(s, i, j)
}

/// First index at or after `from` holding `d`, if any; stated through
/// `spec_find` on the suffix starting at `from`.
pub fn find_from(s: &[char], from: usize, d: char) -> (r: Option<usize>)
    requires
        from <= s@.len(),
    ensures
        ({
            let f = spec_find(s@.subrange(from as int, s@.len() as int), d);
            match r {
                Some(j) => from <= j < s@.len() && f == Some(j - from),
                None => f is None,
            }
        }),
{
    let mut j: usize = from;
    while j < s.len() && s[j] != d
        invariant
            from <= j <= s@.len(),
            forall|k: int| from <= k < j ==> s@[k] != d,
        decreases s@.len() - j,
    {
        j = j + 1;
    }
    proof {
        let suf = s@.subrange(from as int, s@.len() as int);
        lemma_find_at(suf, d, j - from);
    }
    if j == s.len() {
        None
    } else {
        Some(j)
    }
}

/// The pieces of `s` between occurrences of the delimiter `d`; always at
/// least one piece, and empty pieces are kept.
pub open spec fn spec_split(s: Seq<char>, d: char) -> Seq<Seq<char>>
    decreases s.len(),
    via spec_split_decreases
{
    match spec_find(s, d) {
        None => seq![s],
        Some(i) => seq![s.subrange(0, i)] + spec_split(s.subrange(i + 1, s.len() as int), d),
    }
}

#[via_fn]
proof fn spec_split_decreases(s: Seq<char>, d: char) {
    lemma_find_bounds(s, d);
}

pub proof fn lemma_split_len(s: Seq<char>, d: char)
    ensures
        spec_split(s, d).len() >= 1,
    decreases s.len(),
{
    lemma_find_bounds(s, d);
    match spec_find(s, d) {
        None => {},
        Some(i) => {
            lemma_split_len(s.subrange(i + 1, s.len() as int), d);
        },
    }
}

/// The pieces of `s` between occurrences of the delimiter `d`.
pub fn split_char(s: &[char], d: char) -> (r: Vec<Vec<char>>)
    ensures
        r@.map_values(|t: Vec<char>| t@) == spec_split(s@, d),
{
    let mut out: Vec<Vec<char>> = Vec::new();
    let mut p: usize = 0;
    proof {
        assert(s@.subrange(0, s@.len() as int) =~= s@);
        assert(out@.map_values(|t: Vec<char>| t@) + spec_split(s@, d) =~= spec_split(s@, d));
    }
    loop
        invariant
            p <= s@.len(),
            spec_split(s@, d) == out@.map_values(|t: Vec<char>| t@) + spec_split(
                s@.subrange(p as int, s@.len() as int),
                d,
            ),
        decreases s@.len() - p,
    {
        let ghost suf = s@.subrange(p as int, s@.len() as int);
        let ghost prev = out@.map_values(|t: Vec<char>| t@);
        match find_from(s, p, d) {
            None => {
                out.push(slice_to_vec(slice_subrange(s, p, s.len())));
                proof {
                    assert(spec_split(suf, d) == seq![suf]);
                    assert(out@.map_values(|t: Vec<char>| t@) =~= prev + seq![suf]);
                }
                return out;
            },
            Some(j) => {
                let n = s.len();
                proof {
                    assert(j < n);
                }
                out.push(slice_to_vec(slice_subrange(s, p, j)));
                proof {
                    assert(spec_split(suf, d) == seq![suf.subrange(0, j - p)] + spec_split(
                        suf.subrange(j - p + 1, suf.len() as int),
                        d,
                    ));
                    assert(suf.subrange(0, j - p) =~= s@.subrange(p as int, j as int));
                    assert(suf.subrange(j - p + 1, suf.len() as int) =~= s@.subrange(
                        j + 1,
                        s@.len() as int,
                    ));
                    assert(out@.map_values(|t: Vec<char>| t@) =~= prev + seq![
                        s@.subrange(p as int, j as int),
                    ]);
                }
                p = j + 1;
            },
        }
    }
}

/// Whether two character slices hold the same characters.
pub fn chars_eq(s: &[char], l: &[char]) -> (r: bool)
    ensures
        r == (s@ == l@),
{
    if s.len() != l.len() {
        return false;
    }
    let mut k: usize = 0;
    while k < s.len()
        invariant
            k <= s@.len(),
            s@.len() == l@.len(),
            forall|m: int| 0 <= m < k ==> s@[m] == l@[m],
        decreases s@.len() - k,
    {
        if s[k] != l[k] {
            return false;
        }
        k = k + 1;
    }
    proof {
        assert(s@ =~= l@);
    }
    true
}

/// Whether the characters of `s` are exactly those of `lit`.
pub fn eq_str(s: &[char], lit: &str) -> (r: bool)
    ensures
        r == (s@ == lit@),
{
    let l = str_chars(lit);
    chars_eq(s, l.as_slice())
}

/// Whether `p` occurs as a contiguous run inside `s` at position `j`.
pub open spec fn sub_at(s: Seq<char>, p: Seq<char>, j: int) -> bool {
    0 <= j && j + p.len() <= s.len() && s.subrange(j, j + p.len()) == p
}

/// Index of the first occurrence of `p` as a contiguous run inside `s`.
pub open spec fn spec_find_sub(s: Seq<char>, p: Seq<char>) -> Option<int>
    decreases s.len(),
{
    if p.len() > s.len() {
        None
    } else if s.subrange(0, p.len() as int) == p {
        Some(0)
    } else if s.len() == 0 {
        None
    } else {
        match spec_find_sub(s.subrange(1, s.len() as int), p) {
            None => None,
            Some(i) => Some(i + 1),
        }
    }
}

proof fn lemma_find_sub_at(s: Seq<char>, p: Seq<char>, i: int)
    requires
        forall|j: int| 0 <= j < i ==> !#[trigger] sub_at(s, p, j),
        sub_at(s, p, i),
    ensures
        spec_find_sub(s, p) == Some(i),
    decreases i,
{
    if i == 0 {
        assert(s.subrange(0, p.len() as int) == p);
    } else {
        assert(!sub_at(s, p, 0));
        assert(s.subrange(0, p.len() as int) != p);
        let t = s.subrange(1, s.len() as int);
        assert forall|j: int| 0 <= j < i - 1 implies !#[trigger] sub_at(t, p, j) by {
            if j + p.len() <= t.len() {
                assert(t.subrange(j, j + p.len()) =~= s.subrange(j + 1, j + 1 + p.len()));
                assert(!sub_at(s, p, j + 1));
            }
        }
        assert(t.subrange(i - 1, i - 1 + p.len()) =~= s.subrange(i, i + p.len()));
        assert(sub_at(t, p, i - 1));
        lemma_find_sub_at(t, p, i - 1);
    }
}

proof fn lemma_find_sub_none(s: Seq<char>, p: Seq<char>)
    requires
        forall|j: int| !#[trigger] sub_at(s, p, j),
    ensures
        spec_find_sub(s, p) is None,
    decreases s.len(),
{
    if p.len() > s.len() {
    } else if s.len() == 0 {
        assert(s.subrange(0, p.len() as int) =~= p);
        assert(sub_at(s, p, 0));
    } else {
        assert(!sub_at(s, p, 0));
        assert(s.subrange(0, p.len() as int) != p);
        let t = s.subrange(1, s.len() as int);
        assert forall|j: int| !#[trigger] sub_at(t, p, j) by {
            if 0 <= j && j + p.len() <= t.len() {
                assert(t.subrange(j, j + p.len()) =~= s.subrange(j + 1, j + 1 + p.len()));
                assert(!sub_at(s, p, j + 1));
            }
        }
        lemma_find_sub_none(t, p);
    }
}

/// First index where the literal `pat` occurs inside `s`, if anywhere.
pub fn find_sub(s: &[char], pat: &str) -> (r: Option<usize>)
    ensures
        match r {
            Some(i) => spec_find_sub(s@, pat@) == Some(i as int) && i + pat@.len() <= s@.len(),
            None => spec_find_sub(s@, pat@) is None,
        },
{
    let m = str_chars(pat);
    if m.len() > s.len() {
        proof {
            assert forall|j: int| !#[trigger] sub_at(s@, pat@, j) by {}
            lemma_find_sub_none(s@, pat@);
        }
        return None;
    }
    if m.len() == 0 {
        proof {
            assert(s@.subrange(0, pat@.len() as int) =~= pat@);
        }
        return Some(0);
    }
    let n = s.len();
    let bound = n - m.len();
    let mut i: usize = 0;
    while i <= bound
        invariant
            m@ == pat@,
            1 <= m@.len() <= s@.len(),
            n == s@.len(),
            bound == s@.len() - m@.len(),
            i <= bound + 1,
            forall|j: int| 0 <= j < i ==> !#[trigger] sub_at(s@, pat@, j),
        decreases bound + 1 - i,
    {
        if chars_eq(slice_subrange(s, i, i + m.len()), m.as_slice()) {
            proof {
                assert(sub_at(s@, pat@, i as int));
                lemma_find_sub_at(s@, pat@, i as int);
            }
            return Some(i);
        }
        proof {
            assert(!sub_at(s@, pat@, i as int));
        }
        i = i + 1;
    }
    proof {
        assert forall|j: int| !#[trigger] sub_at(s@, pat@, j) by {
            if 0 <= j && j + pat@.len() <= s@.len() {
                assert(j < i);
            }
        }
        lemma_find_sub_none(s@, pat@);
    }
    None
}

} // verus!
