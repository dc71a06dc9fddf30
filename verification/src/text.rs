//! Verified text primitives the field extractor is built on: substring
//! search, whitespace trimming, and removal of one token occurrence.

use vstd::prelude::*;
use vstd::string::StrSliceExecFns;

verus! {

/// The characters of `s`, in order.
pub fn chars_of(s: &str) -> (r: Vec<char>)
    ensures
        r@ == s@,
{
    let n = s.unicode_len();
    let mut r: Vec<char> = Vec::new();
    let mut k: usize = 0;
    while k < n
        invariant
            n == s@.len(),
            k <= n,
            r@ == s@.subrange(0, k as int),
        decreases n - k,
    {
        r.push(s.get_char(k));
        assert(s@.subrange(0, k + 1) =~= s@.subrange(0, k as int).push(s@[k as int]));
        k += 1;
    }
    assert(s@.subrange(0, n as int) =~= s@);
    r
}

/// Relies on `String`'s `FromIterator` impl for `&char`: collecting the
/// characters of `v` gives the string whose characters are exactly `v`.
#[verifier::external_body]
pub(crate) fn string_of(v: &[char]) -> (r: String)
    ensures
        r@ == v@,
{
    v.iter().collect()
}

/// Whitespace as the extractor trims it.
pub open spec fn is_space(c: char) -> bool {
    c == ' ' || c == '\t' || c == '\n' || c == '\r'
}

/// True when `pat` occurs in `s` starting at position `i`.
pub open spec fn is_match_at(s: Seq<char>, pat: Seq<char>, i: int) -> bool {
    0 <= i && i + pat.len() <= s.len() && s.subrange(i, i + pat.len()) == pat
}

/// Position of the first occurrence of `pat` in `s` at or after `from`.
pub open spec fn first_occurrence(s: Seq<char>, pat: Seq<char>, from: int) -> Option<int>
    recommends
        from >= 0,
    decreases s.len() + 1 - from,
{
    if from < 0 || from + pat.len() > s.len() {
        None
    } else if is_match_at(s, pat, from) {
        Some(from)
    } else {
        first_occurrence(s, pat, from + 1)
    }
}

/// A found occurrence is a match at or after `from`, and the earliest one.
pub proof fn lemma_first_occurrence_some(s: Seq<char>, pat: Seq<char>, from: int, i: int)
    requires
        first_occurrence(s, pat, from) == Some(i),
    ensures
        from <= i,
        is_match_at(s, pat, i),
        forall|j: int| from <= j < i ==> !is_match_at(s, pat, j),
    decreases s.len() + 1 - from,
{
    if from < 0 || from + pat.len() > s.len() {
        // the definition yields None here, against the premise
    } else if is_match_at(s, pat, from) {
    } else {
        lemma_first_occurrence_some(s, pat, from + 1, i);
    }
}

/// When the search comes back empty, no position at or after `from` matches.
pub proof fn lemma_first_occurrence_none(s: Seq<char>, pat: Seq<char>, from: int)
    requires
        from >= 0,
        first_occurrence(s, pat, from) is None,
    ensures
        forall|j: int| j >= from ==> !is_match_at(s, pat, j),
    decreases s.len() + 1 - from,
{
    if from + pat.len() > s.len() {
        assert forall|j: int| j >= from implies !is_match_at(s, pat, j) by {
            assert(j + pat.len() > s.len());
        }
    } else if is_match_at(s, pat, from) {
    } else {
        lemma_first_occurrence_none(s, pat, from + 1);
    }
}

/// True when `pat` occurs in `s` at position `i`.
fn match_at(s: &[char], pat: &[char], i: usize) -> (r: bool)
    requires
        i + pat@.len() <= s@.len(),
    ensures
        r == is_match_at(s@, pat@, i as int),
{
    let n = s.len();
    let mut k: usize = 0;
    while k < pat.len()
        invariant
            i + pat@.len() <= n == s@.len(),
            k <= pat@.len(),
            forall|j: int| 0 <= j < k ==> s@[i + j] == pat@[j],
        decreases pat@.len() - k,
    {
        if s[i + k] != pat[k] {
            assert(s@.subrange(i as int, i + pat@.len())[k as int] == s@[i + k]);
            return false;
        }
        k += 1;
    }
    assert(s@.subrange(i as int, i + pat@.len()) =~= pat@);
    true
}

/// First occurrence of `pat` in `s` at or after `from`, as the spec-level
/// search gives it.
pub fn find_from(s: &[char], pat: &[char], from: usize) -> (r: Option<usize>)
    ensures
        match r {
            Some(i) => first_occurrence(s@, pat@, from as int) == Some(i as int),
            None => first_occurrence(s@, pat@, from as int) is None,
        },
{
    if pat.len() > s.len() {
        return None;
    }
    if pat.len() == 0 {
        if from <= s.len() {
            assert(s@.subrange(from as int, from as int) =~= pat@);
            return Some(from);
        }
        return None;
    }
    let n = s.len();
    let last = n - pat.len();
    let mut k = from;
    while k <= last
        invariant
            from <= k,
            n == s@.len(),
            0 < pat@.len() <= n,
            last == n - pat@.len(),
            first_occurrence(s@, pat@, from as int) == first_occurrence(s@, pat@, k as int),
        decreases last + 1 - k,
    {
        if match_at(s, pat, k) {
            return Some(k);
        }
        k += 1;
    }
    None
}

/// `s` without its leading whitespace.
pub open spec fn drop_leading_spaces(s: Seq<char>) -> Seq<char>
    decreases s.len(),
{
    if s.len() > 0 && is_space(s[0]) {
        drop_leading_spaces(s.drop_first())
    } else {
        s
    }
}

/// `s` without its trailing whitespace.
pub open spec fn drop_trailing_spaces(s: Seq<char>) -> Seq<char>
    decreases s.len(),
{
    if s.len() > 0 && is_space(s.last()) {
        drop_trailing_spaces(s.drop_last())
    } else {
        s
    }
}

/// `s` without leading and trailing whitespace.
pub open spec fn trimmed(s: Seq<char>) -> Seq<char> {
    drop_trailing_spaces(drop_leading_spaces(s))
}

proof fn lemma_drop_leading_at(s: Seq<char>, lo: int)
    requires
        0 <= lo <= s.len(),
        forall|j: int| 0 <= j < lo ==> is_space(s[j]),
        lo == s.len() || !is_space(s[lo]),
    ensures
        drop_leading_spaces(s) == s.subrange(lo, s.len() as int),
    decreases lo,
{
    if lo == 0 {
        assert(s.subrange(0, s.len() as int) =~= s);
    } else {
        lemma_drop_leading_at(s.drop_first(), lo - 1);
        assert(s.drop_first().subrange(lo - 1, s.drop_first().len() as int) =~= s.subrange(
            lo,
            s.len() as int,
        ));
    }
}

proof fn lemma_drop_trailing_at(s: Seq<char>, hi: int)
    requires
        0 <= hi <= s.len(),
        forall|j: int| hi <= j < s.len() ==> is_space(s[j]),
        hi == 0 || !is_space(s[hi - 1]),
    ensures
        drop_trailing_spaces(s) == s.subrange(0, hi),
    decreases s.len() - hi,
{
    if hi == s.len() {
        assert(s.subrange(0, hi) =~= s);
    } else {
        lemma_drop_trailing_at(s.drop_last(), hi);
        assert(s.drop_last().subrange(0, hi) =~= s.subrange(0, hi));
    }
}

/// A fresh copy of `s[lo..hi]`.
pub fn copy_range(s: &[char], lo: usize, hi: usize) -> (r: Vec<char>)
    requires
        lo <= hi <= s@.len(),
    ensures
        r@ == s@.subrange(lo as int, hi as int),
{
    let mut r: Vec<char> = Vec::new();
    let mut k = lo;
    while k < hi
        invariant
            lo <= k <= hi <= s@.len(),
            r@ == s@.subrange(lo as int, k as int),
        decreases hi - k,
    {
        r.push(s[k]);
        assert(s@.subrange(lo as int, k + 1) =~= s@.subrange(lo as int, k as int).push(
            s@[k as int],
        ));
        k += 1;
    }
    r
}

/// `s` with leading and trailing whitespace removed.
pub fn trim(s: &[char]) -> (r: Vec<char>)
    ensures
        r@ == trimmed(s@),
{
    let n = s.len();
    let mut lo: usize = 0;
    while lo < n && is_space_exec(s[lo])
        invariant
            lo <= n == s@.len(),
            forall|j: int| 0 <= j < lo ==> is_space(s@[j]),
        decreases n - lo,
    {
        lo += 1;
    }
    proof {
        lemma_drop_leading_at(s@, lo as int);
    }
    if lo == n {
        proof {
            assert(drop_leading_spaces(s@) =~= Seq::<char>::empty());
        }
        return Vec::new();
    }
    // s[lo] is not a space, so the backward scan stops at or after lo + 1
    let mut hi: usize = n;
    while hi > lo + 1 && is_space_exec(s[hi - 1])
        invariant
            lo < hi <= n == s@.len(),
            !is_space(s@[lo as int]),
            forall|j: int| hi <= j < n ==> is_space(s@[j]),
        decreases hi,
    {
        hi -= 1;
    }
    // either the scan stopped on a non-space, or it ran down to lo + 1,
    // whose predecessor s[lo] is not a space
    proof {
        let tail = s@.subrange(lo as int, s@.len() as int);
        lemma_drop_trailing_at(tail, hi - lo);
        assert(tail.subrange(0, hi - lo) =~= s@.subrange(lo as int, hi as int));
    }
    copy_range(s, lo, hi)
}

/// Whitespace test, usable from executable code.
pub fn is_space_exec(c: char) -> (r: bool)
    ensures
        r == is_space(c),
{
    c == ' ' || c == '\t' || c == '\n' || c == '\r'
}

/// `s` with the first occurrence of `tok` removed, or `s` itself when `tok`
/// does not occur.
pub open spec fn strip_token_once(s: Seq<char>, tok: Seq<char>) -> Seq<char> {
    match first_occurrence(s, tok, 0) {
        Some(i) => s.subrange(0, i) + s.subrange(i + tok.len(), s.len() as int),
        None => s,
    }
}

/// Stripping a token removes exactly its first occurrence — the text before
/// and after that one occurrence is kept as it is, so a second occurrence
/// survives — and a string in which the token does not occur is left
/// untouched.
pub proof fn law_strip_token_once(s: Seq<char>, tok: Seq<char>)
    ensures
        first_occurrence(s, tok, 0) matches Some(i) ==> strip_token_once(s, tok) == s.subrange(
            0,
            i,
        ) + s.subrange(i + tok.len(), s.len() as int),
        first_occurrence(s, tok, 0) is None ==> strip_token_once(s, tok) == s,
{
}

/// Removes the first occurrence of `tok` from `s`; everything around that one
/// occurrence is kept, and a second occurrence survives.
pub fn remove_token_once(s: &[char], tok: &[char]) -> (r: Vec<char>)
    ensures
        r@ == strip_token_once(s@, tok@),
{
    let n = s.len();
    match find_from(s, tok, 0) {
        Some(i) => {
            proof {
                lemma_first_occurrence_some(s@, tok@, 0, i as int);
            }
            let mut r = copy_range(s, 0, i);
            let mut rest = copy_range(s, i + tok.len(), n);
            r.append(&mut rest);
            r
        },
        None => {
            let r = copy_range(s, 0, n);
            proof {
                assert(s@.subrange(0, n as int) =~= s@);
            }
            r
        },
    }
}

} // verus!
