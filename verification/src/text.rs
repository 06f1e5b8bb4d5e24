//! Case-insensitive and exact substring matching over character sequences.
//!
//! The pattern matcher folds letter case away while scanning, so the
//! predicates here come in two flavours: `chars_match` treats ASCII
//! letters of either case as equal, while the `eq_at` family compares
//! characters exactly.

use vstd::prelude::*;

verus! {

/// Two characters match ignoring ASCII letter case: either they are
/// equal, or they are the upper- and lower-case forms of one ASCII letter.
pub open spec fn chars_match(a: char, b: char) -> bool {
    ||| a == b
    ||| ('A' <= a && a <= 'Z' && b as int == a as int + 32)
    ||| ('a' <= a && a <= 'z' && a as int == b as int + 32)
}

/// The pattern `pat` occurs in `text` at position `i`, ignoring ASCII case.
pub open spec fn matches_at(text: Seq<char>, pat: Seq<char>, i: int) -> bool {
    &&& 0 <= i
    &&& i + pat.len() <= text.len()
    &&& forall|j: int| 0 <= j < pat.len() ==> chars_match(text[i + j], pat[j])
}

/// The pattern `pat` occurs somewhere in `text`, ignoring ASCII case.
pub open spec fn contains_ci(text: Seq<char>, pat: Seq<char>) -> bool {
    exists|i: int| matches_at(text, pat, i)
}

/// The pattern `pat` occurs in `text` at position `i`, compared exactly.
pub open spec fn eq_at(text: Seq<char>, pat: Seq<char>, i: int) -> bool {
    &&& 0 <= i
    &&& i + pat.len() <= text.len()
    &&& forall|j: int| 0 <= j < pat.len() ==> text[i + j] == pat[j]
}

/// The pattern `pat` occurs somewhere in `text`, compared exactly.
pub open spec fn contains_seq(text: Seq<char>, pat: Seq<char>) -> bool {
    exists|i: int| eq_at(text, pat, i)
}

/// A non-empty pattern never occurs in an empty text.
pub proof fn lemma_empty_text_has_no_match(text: Seq<char>, pat: Seq<char>)
    requires
        text.len() == 0,
        pat.len() > 0,
    ensures
        !contains_ci(text, pat),
        !contains_seq(text, pat),
{
}

/// Decides `chars_match` for one pair of characters.
fn chars_match_exec(a: char, b: char) -> (r: bool)
    ensures
        r == chars_match(a, b),
{
    if a == b {
        true
    } else if 'A' <= a && a <= 'Z' {
        b as u32 == a as u32 + 32
    } else if 'a' <= a && a <= 'z' {
        a as u32 == b as u32 + 32
    } else {
        false
    }
}

/// The characters of `s`, in order.
pub fn chars_of(s: &str) -> (r: Vec<char>)
    ensures
        r@ == s@,
{
    let n = s.unicode_len();
    let mut v: Vec<char> = Vec::new();
    let mut i: usize = 0;
    while i < n
        invariant
            i <= n,
            n == s@.len(),
            v@ == s@.subrange(0, i as int),
        decreases n - i,
    {
        v.push(s.get_char(i));
        i = i + 1;
        proof {
            assert(v@ =~= s@.subrange(0, i as int));
        }
    }
    proof {
        assert(v@ =~= s@);
    }
    v
}

/// Decides whether `pat` occurs at position `i` of `text`, ignoring case.
fn match_ci_at(text: &Vec<char>, pat: &Vec<char>, i: usize) -> (r: bool)
    requires
        i + pat@.len() <= text@.len(),
    ensures
        r == matches_at(text@, pat@, i as int),
{
    let n = text.len();
    let m = pat.len();
    let mut j: usize = 0;
    while j < m
        invariant
            n == text@.len(),
            m == pat@.len(),
            j <= m,
            i + m <= n,
            forall|k: int| 0 <= k < j ==> chars_match(text@[i + k], pat@[k]),
        decreases m - j,
    {
        if !chars_match_exec(text[i + j], pat[j]) {
            return false;
        }
        j = j + 1;
    }
    true
}

/// Decides whether `pat` occurs at position `i` of `text`, compared exactly.
fn match_eq_at(text: &Vec<char>, pat: &Vec<char>, i: usize) -> (r: bool)
    requires
        i + pat@.len() <= text@.len(),
    ensures
        r == eq_at(text@, pat@, i as int),
{
    let n = text.len();
    let m = pat.len();
    let mut j: usize = 0;
    while j < m
        invariant
            n == text@.len(),
            m == pat@.len(),
            j <= m,
            i + m <= n,
            forall|k: int| 0 <= k < j ==> text@[i + k] == pat@[k],
        decreases m - j,
    {
        if text[i + j] != pat[j] {
            return false;
        }
        j = j + 1;
    }
    true
}

/// Decides `contains_ci` over character vectors.
pub fn vec_contains_ci(text: &Vec<char>, pat: &Vec<char>) -> (r: bool)
    ensures
        r == contains_ci(text@, pat@),
{
    if pat.len() > text.len() {
        return false;
    }
    let end = text.len() - pat.len();
    let mut i: usize = 0;
    loop
        invariant
            pat@.len() <= text@.len(),
            end == text@.len() - pat@.len(),
            i <= end,
            forall|k: int| 0 <= k < i ==> !matches_at(text@, pat@, k),
        decreases end - i,
    {
        if match_ci_at(text, pat, i) {
            return true;
        }
        if i == end {
            return false;
        }
        i = i + 1;
    }
}

/// Decides `contains_seq` over character vectors.
pub fn vec_contains_eq(text: &Vec<char>, pat: &Vec<char>) -> (r: bool)
    ensures
        r == contains_seq(text@, pat@),
{
    if pat.len() > text.len() {
        return false;
    }
    let end = text.len() - pat.len();
    let mut i: usize = 0;
    loop
        invariant
            pat@.len() <= text@.len(),
            end == text@.len() - pat@.len(),
            i <= end,
            forall|k: int| 0 <= k < i ==> !eq_at(text@, pat@, k),
        decreases end - i,
    {
        if match_eq_at(text, pat, i) {
            return true;
        }
        if i == end {
            return false;
        }
        i = i + 1;
    }
}

/// Decides whether `pat` occurs in `text`, ignoring ASCII letter case.
pub fn str_contains_ci(text: &str, pat: &str) -> (r: bool)
    ensures
        r == contains_ci(text@, pat@),
{
    let t = chars_of(text);
    let p = chars_of(pat);
    vec_contains_ci(&t, &p)
}

/// Decides whether `pat` occurs in `text`, compared exactly.
pub fn str_contains_eq(text: &str, pat: &str) -> (r: bool)
    ensures
        r == contains_seq(text@, pat@),
{
    let t = chars_of(text);
    let p = chars_of(pat);
    vec_contains_eq(&t, &p)
}

} // verus!
