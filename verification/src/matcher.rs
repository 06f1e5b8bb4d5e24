//! The pattern matcher: a case-insensitive substring scan of a message
//! against the pattern catalog, returning the first matching rule in
//! catalog priority order.

use vstd::prelude::*;

use crate::catalog::Rule;
use crate::catalog::rules_wf;
use crate::catalog::spec_phrases;
use crate::catalog::spec_category_of;
use crate::catalog::spec_hint_of;
use crate::text::contains_ci;
use crate::text::chars_of;
use crate::text::vec_contains_ci;

verus! {

/// The index of the first catalog phrase at or after position `i` that
/// occurs in `msg` ignoring ASCII letter case, if any.
pub open spec fn spec_first_match_from(msg: Seq<char>, i: int) -> Option<int>
    decreases spec_phrases().len() - i,
{
    if i < 0 || i >= spec_phrases().len() {
        None
    } else if contains_ci(msg, spec_phrases()[i]) {
        Some(i)
    } else {
        spec_first_match_from(msg, i + 1)
    }
}

/// The index of the first catalog phrase that occurs in `msg`, ignoring
/// ASCII letter case; `None` when no phrase occurs. The scan order is
/// the catalog priority order, so the first category in priority order
/// wins even if a later category holds a longer matching phrase.
pub open spec fn spec_match(msg: Seq<char>) -> Option<int> {
    spec_first_match_from(msg, 0)
}

/// A matched index lies in the catalog and its phrase occurs in the
/// message; earlier catalog entries do not occur.
pub proof fn lemma_first_match_from(msg: Seq<char>, i: int, j: int)
    requires
        0 <= i,
        spec_first_match_from(msg, i) == Some(j),
    ensures
        i <= j < spec_phrases().len(),
        contains_ci(msg, spec_phrases()[j]),
        forall|k: int| i <= k < j ==> !contains_ci(msg, #[trigger] spec_phrases()[k]),
    decreases spec_phrases().len() - i,
{
    if i < spec_phrases().len() && !contains_ci(msg, spec_phrases()[i]) {
        lemma_first_match_from(msg, i + 1, j);
    }
}

/// Every catalog phrase is non-empty.
proof fn lemma_phrases_nonempty()
    ensures
        forall|k: int| 0 <= k < spec_phrases().len() ==> (#[trigger] spec_phrases()[k]).len() > 0,
{
    reveal_strlit("malware");
    reveal_strlit("private key");
    reveal_strlit("seed phrase");
    reveal_strlit("wallet compromise");
    reveal_strlit("key leak");
    reveal_strlit("unauthorized transfer");
    reveal_strlit("replay attack");
    reveal_strlit("front-running");
    reveal_strlit("malicious MEV");
    reveal_strlit("threshold signature");
    reveal_strlit("canister exploit");
    reveal_strlit("cycle drain");
    reveal_strlit("principal id theft");
    reveal_strlit("vetkd exploit");
    reveal_strlit("encrypted-notes vulnerability");
    reveal_strlit("deterministic encryption");
    reveal_strlit("reused key pair");
    reveal_strlit("session timeout");
    reveal_strlit("symmetric key");
    reveal_strlit("unauthorized delegation");
    reveal_strlit("canister call injection");
}

/// From position `j` on, an empty message matches nothing.
proof fn lemma_empty_message_no_match_from(msg: Seq<char>, j: int)
    requires
        msg.len() == 0,
        0 <= j,
        forall|k: int| 0 <= k < spec_phrases().len() ==> (#[trigger] spec_phrases()[k]).len() > 0,
    ensures
        spec_first_match_from(msg, j) is None,
    decreases spec_phrases().len() - j,
{
    if j < spec_phrases().len() {
        crate::text::lemma_empty_text_has_no_match(msg, spec_phrases()[j]);
        lemma_empty_message_no_match_from(msg, j + 1);
    }
}

/// An empty message yields no match.
pub proof fn lemma_empty_message_no_match(msg: Seq<char>)
    requires
        msg.len() == 0,
    ensures
        spec_match(msg) is None,
{
    lemma_phrases_nonempty();
    lemma_empty_message_no_match_from(msg, 0);
}

/// From position `j` on, the matcher picks `i` when the phrase at `i`
/// occurs in `msg` and no phrase in between does.
proof fn lemma_first_match_from_is(msg: Seq<char>, j: int, i: int)
    requires
        0 <= j <= i < spec_phrases().len(),
        contains_ci(msg, spec_phrases()[i]),
        forall|k: int| j <= k < i ==> !contains_ci(msg, #[trigger] spec_phrases()[k]),
    ensures
        spec_first_match_from(msg, j) == Some(i),
    decreases i - j,
{
    if j < i {
        lemma_first_match_from_is(msg, j + 1, i);
    }
}

/// When the phrase at `i` occurs in `msg` and no earlier catalog
/// phrase does, the matcher picks exactly `i`.
pub proof fn lemma_first_match_is(msg: Seq<char>, i: int)
    requires
        0 <= i < spec_phrases().len(),
        contains_ci(msg, spec_phrases()[i]),
        forall|k: int| 0 <= k < i ==> !contains_ci(msg, #[trigger] spec_phrases()[k]),
    ensures
        spec_match(msg) == Some(i),
{
    lemma_first_match_from_is(msg, 0, i);
}

/// Scans the catalog in priority order; returns the index of the first
/// rule whose phrase occurs in `msg` ignoring ASCII letter case.
pub fn match_in_catalog(rules: &Vec<Rule>, msg: &Vec<char>) -> (r: Option<usize>)
    requires
        rules_wf(rules@),
    ensures
        match r {
            Some(i) => spec_match(msg@) == Some(i as int),
            None => spec_match(msg@) is None,
        },
{
    let n = rules.len();
    let mut i: usize = 0;
    while i < n
        invariant
            rules_wf(rules@),
            n == rules@.len(),
            i <= n,
            spec_first_match_from(msg@, 0) == spec_first_match_from(msg@, i as int),
        decreases n - i,
    {
        let p = chars_of(rules[i].phrase.as_str());
        if vec_contains_ci(msg, &p) {
            return Some(i);
        }
        i = i + 1;
        proof {
            assert(spec_first_match_from(msg@, i as int - 1) == spec_first_match_from(
                msg@,
                i as int,
            ));
        }
    }
    None
}

/// Matches one message against the pattern catalog; returns the first
/// matching rule per the fixed category priority order, or `None` when
/// no phrase occurs (in particular, an empty message yields no match).
pub fn match_message(msg: &str) -> (r: Option<Rule>)
    ensures
        match spec_match(msg@) {
            Some(i) => {
                &&& r is Some
                &&& r->Some_0.phrase@ == spec_phrases()[i]
                &&& r->Some_0.category == spec_category_of(i)
                &&& r->Some_0.severity_hint == spec_hint_of(i)
            },
            None => r is None,
        },
{
    let rules = crate::catalog::catalog();
    let m = chars_of(msg);
    match match_in_catalog(&rules, &m) {
        Some(i) => {
            proof {
                lemma_first_match_from(msg@, 0, i as int);
            }
            let rule = &rules[i];
            Some(
                Rule {
                    phrase: rule.phrase.clone(),
                    category: rule.category,
                    severity_hint: rule.severity_hint,
                },
            )
        },
        None => None,
    }
}

} // verus!
