//! The pattern catalog: rule categories, severity tiers, and the
//! phrase table the matcher scans.
//!
//! The catalog is immutable once built. Categories are scanned in a
//! fixed priority order — general malware keywords first, then
//! crypto/blockchain threat phrases, then platform-vulnerability
//! phrases — and within a category phrases keep their catalog order.
//! The first matching phrase wins; this first-match-wins policy is a
//! semantic contract, not an implementation detail.

use vstd::prelude::*;

use crate::text::contains_seq;
use crate::text::str_contains_eq;

verus! {

/// A rule category. The declaration order is the scan priority order.
#[derive(Clone, Copy, PartialEq, Eq, Structural, Debug)]
pub enum Category {
    Malware,
    CryptoThreat,
    PlatformVulnerability,
}

/// A severity tier.
#[derive(Clone, Copy, PartialEq, Eq, Structural, Debug)]
pub enum Severity {
    Critical,
    High,
    Medium,
}

/// One catalog rule: a phrase to look for, the category it belongs to,
/// and the severity tier assigned when it fires.
pub struct Rule {
    pub phrase: String,
    pub category: Category,
    pub severity_hint: Severity,
}

/// The catalog phrases, in scan priority order: the general malware
/// keyword first, then the crypto/blockchain threat phrases, then the
/// platform-vulnerability phrases.
pub open spec fn spec_phrases() -> Seq<Seq<char>> {
    seq![
        "malware"@,
        "private key"@,
        "seed phrase"@,
        "wallet compromise"@,
        "key leak"@,
        "unauthorized transfer"@,
        "replay attack"@,
        "front-running"@,
        "malicious MEV"@,
        "threshold signature"@,
        "canister exploit"@,
        "cycle drain"@,
        "principal id theft"@,
        "vetkd exploit"@,
        "encrypted-notes vulnerability"@,
        "deterministic encryption"@,
        "reused key pair"@,
        "session timeout"@,
        "symmetric key"@,
        "unauthorized delegation"@,
        "canister call injection"@,
    ]
}

/// The category of the catalog entry at index `i`.
pub open spec fn spec_category_of(i: int) -> Category {
    if i == 0 {
        Category::Malware
    } else if 1 <= i <= 12 {
        Category::CryptoThreat
    } else {
        Category::PlatformVulnerability
    }
}

/// The severity tier of a phrase: phrases containing "private key",
/// "seed phrase" or "principal id theft" are Critical; phrases
/// containing "canister", "cycle" or "delegation" are High; everything
/// else is Medium. The comparison is at substring level, not whole
/// tokens.
pub open spec fn spec_severity_of(phrase: Seq<char>) -> Severity {
    if contains_seq(phrase, "private key"@) || contains_seq(phrase, "seed phrase"@)
        || contains_seq(phrase, "principal id theft"@) {
        Severity::Critical
    } else if contains_seq(phrase, "canister"@) || contains_seq(phrase, "cycle"@)
        || contains_seq(phrase, "delegation"@) {
        Severity::High
    } else {
        Severity::Medium
    }
}

/// The severity tier assigned to the catalog entry at index `i`:
/// every entry takes the tier of its phrase from the scorer table —
/// the general malware keyword included, whose phrase holds no marker
/// and is therefore Medium.
pub open spec fn spec_hint_of(i: int) -> Severity {
    spec_severity_of(spec_phrases()[i])
}

/// Every sequence contains itself.
pub proof fn lemma_contains_self(s: Seq<char>)
    ensures
        contains_seq(s, s),
{
    assert(crate::text::eq_at(s, s, 0));
}

/// The catalog entries whose phrases are themselves Critical-tier
/// markers — "private key", "seed phrase" and "principal id theft" —
/// carry the Critical tier.
pub proof fn lemma_catalog_critical_hints()
    ensures
        spec_hint_of(1) == Severity::Critical,
        spec_hint_of(2) == Severity::Critical,
        spec_hint_of(12) == Severity::Critical,
{
    lemma_contains_self("private key"@);
    lemma_contains_self("seed phrase"@);
    lemma_contains_self("principal id theft"@);
}

/// Every phrase containing a Critical-tier marker is rated Critical,
/// whatever else stands around the marker in the phrase.
pub proof fn lemma_critical_marker_is_critical(phrase: Seq<char>)
    requires
        contains_seq(phrase, "private key"@) || contains_seq(phrase, "seed phrase"@)
            || contains_seq(phrase, "principal id theft"@),
    ensures
        spec_severity_of(phrase) == Severity::Critical,
{
}

/// Computes the severity tier of one phrase.
pub fn severity_of(phrase: &str) -> (r: Severity)
    ensures
        r == spec_severity_of(phrase@),
{
    if str_contains_eq(phrase, "private key") || str_contains_eq(phrase, "seed phrase")
        || str_contains_eq(phrase, "principal id theft") {
        Severity::Critical
    } else if str_contains_eq(phrase, "canister") || str_contains_eq(phrase, "cycle")
        || str_contains_eq(phrase, "delegation") {
        Severity::High
    } else {
        Severity::Medium
    }
}

/// The upper-case label of a severity tier.
pub open spec fn spec_severity_label(s: Severity) -> Seq<char> {
    match s {
        Severity::Critical => "CRITICAL"@,
        Severity::High => "HIGH"@,
        Severity::Medium => "MEDIUM"@,
    }
}

impl Severity {
    /// The upper-case label of this tier.
    pub fn label(&self) -> (r: String)
        ensures
            r@ == spec_severity_label(*self),
    {
        match self {
            Severity::Critical => "CRITICAL".to_owned(),
            Severity::High => "HIGH".to_owned(),
            Severity::Medium => "MEDIUM".to_owned(),
        }
    }
}

/// Rates the severity of one threat phrase and returns its upper-case
/// label: "CRITICAL" for phrases containing "private key", "seed
/// phrase" or "principal id theft"; "HIGH" for phrases containing
/// "canister", "cycle" or "delegation"; "MEDIUM" otherwise.
pub fn analyze_threat_severity(threat: &str) -> (r: String)
    ensures
        r@ == spec_severity_label(spec_severity_of(threat@)),
{
    let s = severity_of(threat);
    s.label()
}

/// The name of a category, as it appears in detection results and
/// threat descriptions.
pub open spec fn spec_category_name(c: Category) -> Seq<char> {
    match c {
        Category::Malware => "Malware"@,
        Category::CryptoThreat => "CryptoThreat"@,
        Category::PlatformVulnerability => "PlatformVulnerability"@,
    }
}

/// The base confidence of a category, in hundredths: crypto/blockchain
/// threats 90, platform vulnerabilities 80, general malware 85. The
/// scorer is a deterministic table, not a computation.
pub open spec fn spec_base_confidence(c: Category) -> u32 {
    match c {
        Category::Malware => 85,
        Category::CryptoThreat => 90,
        Category::PlatformVulnerability => 80,
    }
}

/// The name of a category.
pub fn category_name(c: Category) -> (r: String)
    ensures
        r@ == spec_category_name(c),
{
    match c {
        Category::Malware => "Malware".to_owned(),
        Category::CryptoThreat => "CryptoThreat".to_owned(),
        Category::PlatformVulnerability => "PlatformVulnerability".to_owned(),
    }
}

/// The base confidence of a category, in hundredths.
pub fn base_confidence(c: Category) -> (r: u32)
    ensures
        r == spec_base_confidence(c),
{
    match c {
        Category::Malware => 85,
        Category::CryptoThreat => 90,
        Category::PlatformVulnerability => 80,
    }
}

/// True when `rules` is exactly the pattern catalog: the phrases in
/// priority order, each carrying its category and severity tier.
pub open spec fn rules_wf(rules: Seq<Rule>) -> bool {
    &&& rules.len() == spec_phrases().len()
    &&& forall|i: int|
        0 <= i < rules.len() ==> (#[trigger] rules[i]).phrase@ == spec_phrases()[i]
            && rules[i].category == spec_category_of(i) && rules[i].severity_hint
            == spec_hint_of(i)
}

/// Builds the pattern catalog.
pub fn catalog() -> (r: Vec<Rule>)
    ensures
        rules_wf(r@),
{
    let mut v: Vec<Rule> = Vec::new();
    push_rule(&mut v, "malware", Category::Malware);
    push_rule(&mut v, "private key", Category::CryptoThreat);
    push_rule(&mut v, "seed phrase", Category::CryptoThreat);
    push_rule(&mut v, "wallet compromise", Category::CryptoThreat);
    push_rule(&mut v, "key leak", Category::CryptoThreat);
    push_rule(&mut v, "unauthorized transfer", Category::CryptoThreat);
    push_rule(&mut v, "replay attack", Category::CryptoThreat);
    push_rule(&mut v, "front-running", Category::CryptoThreat);
    push_rule(&mut v, "malicious MEV", Category::CryptoThreat);
    push_rule(&mut v, "threshold signature", Category::CryptoThreat);
    push_rule(&mut v, "canister exploit", Category::CryptoThreat);
    push_rule(&mut v, "cycle drain", Category::CryptoThreat);
    push_rule(&mut v, "principal id theft", Category::CryptoThreat);
    push_rule(&mut v, "vetkd exploit", Category::PlatformVulnerability);
    push_rule(&mut v, "encrypted-notes vulnerability", Category::PlatformVulnerability);
    push_rule(&mut v, "deterministic encryption", Category::PlatformVulnerability);
    push_rule(&mut v, "reused key pair", Category::PlatformVulnerability);
    push_rule(&mut v, "session timeout", Category::PlatformVulnerability);
    push_rule(&mut v, "symmetric key", Category::PlatformVulnerability);
    push_rule(&mut v, "unauthorized delegation", Category::PlatformVulnerability);
    push_rule(&mut v, "canister call injection", Category::PlatformVulnerability);
    v
}

/// Appends one rule, computing its severity tier from its phrase.
fn push_rule(v: &mut Vec<Rule>, phrase: &str, category: Category)
    ensures
        final(v)@.len() == old(v)@.len() + 1,
        forall|i: int| 0 <= i < old(v)@.len() ==> final(v)@[i] == old(v)@[i],
        final(v)@.last().phrase@ == phrase@,
        final(v)@.last().category == category,
        final(v)@.last().severity_hint == spec_severity_of(phrase@),
{
    let hint = severity_of(phrase);
    v.push(Rule { phrase: phrase.to_owned(), category, severity_hint: hint });
}

} // verus!
