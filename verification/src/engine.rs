//! The detection orchestrator: drives one batch of events through the
//! pattern matcher, the frequency tracker and the scorer in a fixed
//! order, short-circuiting on the first definitive match, and merges
//! the results into the aggregation store.
//!
//! All engine state is owned by the `Engine` value — nothing ambient —
//! so independent engines can live side by side. Every state mutation
//! completes synchronously inside one call: an `observe` is a single
//! read-modify-write step, never split around external work.
//!
//! Convention: an event that matches nothing and stays under the
//! frequency threshold is classified as a non-threat with confidence
//! 0.95 (in hundredths: 95), never 0 — one convention, held
//! consistently.

use vstd::prelude::*;

use crate::FREQUENCY_THRESHOLD;
use crate::api::LogEntry;
use crate::catalog::Category;
use crate::catalog::Rule;
use crate::catalog::Severity;
use crate::catalog::catalog;
use crate::catalog::rules_wf;
use crate::catalog::spec_base_confidence;
use crate::catalog::spec_category_name;
use crate::catalog::spec_category_of;
use crate::catalog::spec_hint_of;
use crate::catalog::spec_phrases;
use crate::catalog::base_confidence;
use crate::catalog::category_name;
use crate::countmap::CountMap;
use crate::frequency::FrequencyTracker;
use crate::frequency::count_in;
use crate::frequency::spec_observe;
use crate::matcher::spec_match;
use crate::matcher::match_in_catalog;
use crate::matcher::lemma_first_match_from;
use crate::text::chars_of;

verus! {

/// The classification of one event. `confidence` is in hundredths
/// (90 stands for 0.90).
pub struct ThreatDetectionResult {
    pub is_threat: bool,
    pub category: String,
    pub severity: Severity,
    pub confidence: u32,
    pub details: String,
}

/// One recorded security event.
pub struct SecurityLog {
    pub timestamp: u64,
    pub event_type: String,
    pub details: String,
    pub severity: String,
}

/// Whether one event is classified as a threat, given the frequency
/// counters before the event: either a catalog phrase occurs in its
/// message, or — on a matcher miss — the source's updated observation
/// count is beyond the threshold.
pub open spec fn spec_is_threat(fm: Map<Seq<char>, nat>, thr: u64, e: LogEntry) -> bool {
    match spec_match(e.message@) {
        Some(i) => true,
        None => count_in(fm, e.source@) + 1 > thr,
    }
}

/// The category name reported for one event.
pub open spec fn spec_category(fm: Map<Seq<char>, nat>, thr: u64, e: LogEntry) -> Seq<char> {
    match spec_match(e.message@) {
        Some(i) => spec_category_name(spec_category_of(i)),
        None => if count_in(fm, e.source@) + 1 > thr {
            "unusual_frequency"@
        } else {
            "normal"@
        },
    }
}

/// The severity tier reported for one event: the matched rule's tier,
/// or Medium when no rule fired.
pub open spec fn spec_severity(fm: Map<Seq<char>, nat>, thr: u64, e: LogEntry) -> Severity {
    match spec_match(e.message@) {
        Some(i) => spec_hint_of(i),
        None => Severity::Medium,
    }
}

/// The confidence reported for one event, in hundredths: the matched
/// category's base confidence; 60 for a frequency-triggered threat;
/// 95 for a non-threat.
pub open spec fn spec_confidence(fm: Map<Seq<char>, nat>, thr: u64, e: LogEntry) -> u32 {
    match spec_match(e.message@) {
        Some(i) => spec_base_confidence(spec_category_of(i)),
        None => if count_in(fm, e.source@) + 1 > thr {
            60
        } else {
            95
        },
    }
}

/// The description reported for one event. Threat descriptions follow
/// one construction for all rule families:
/// `<category>: <evidence> in <message-or-source>`.
pub open spec fn spec_details(fm: Map<Seq<char>, nat>, thr: u64, e: LogEntry) -> Seq<char> {
    match spec_match(e.message@) {
        Some(i) => spec_category_name(spec_category_of(i)) + ": "@ + spec_phrases()[i] + " in "@
            + e.message@,
        None => if count_in(fm, e.source@) + 1 > thr {
            "unusual_frequency: repeated activity in "@ + e.source@
        } else {
            "No threat detected"@
        },
    }
}

/// The frequency counters after one event: observed once on a matcher
/// miss, untouched on a hit.
pub open spec fn spec_freq_next(fm: Map<Seq<char>, nat>, e: LogEntry) -> Map<Seq<char>, nat> {
    match spec_match(e.message@) {
        Some(i) => fm,
        None => spec_observe(fm, e.source@),
    }
}

/// The aggregation counters after one event: the threat description's
/// counter is incremented exactly when the event is a threat.
pub open spec fn spec_agg_next(
    am: Map<Seq<char>, nat>,
    fm: Map<Seq<char>, nat>,
    thr: u64,
    e: LogEntry,
) -> Map<Seq<char>, nat> {
    if spec_is_threat(fm, thr, e) {
        let d = spec_details(fm, thr, e);
        am.insert(d, count_in(am, d) + 1)
    } else {
        am
    }
}

/// The frequency counters after the first `k` events of a batch.
pub open spec fn spec_freq_after(
    fm: Map<Seq<char>, nat>,
    events: Seq<LogEntry>,
    k: int,
) -> Map<Seq<char>, nat>
    decreases k,
{
    if k <= 0 {
        fm
    } else {
        spec_freq_next(spec_freq_after(fm, events, k - 1), events[k - 1])
    }
}

/// The aggregation counters after the first `k` events of a batch.
pub open spec fn spec_agg_after(
    am: Map<Seq<char>, nat>,
    fm: Map<Seq<char>, nat>,
    thr: u64,
    events: Seq<LogEntry>,
    k: int,
) -> Map<Seq<char>, nat>
    decreases k,
{
    if k <= 0 {
        am
    } else {
        spec_agg_next(
            spec_agg_after(am, fm, thr, events, k - 1),
            spec_freq_after(fm, events, k - 1),
            thr,
            events[k - 1],
        )
    }
}

/// The classification of `r` agrees with the specified classification
/// of event `e` against frequency counters `fm`.
pub open spec fn result_matches(
    r: ThreatDetectionResult,
    fm: Map<Seq<char>, nat>,
    thr: u64,
    e: LogEntry,
) -> bool {
    &&& r.is_threat == spec_is_threat(fm, thr, e)
    &&& r.category@ == spec_category(fm, thr, e)
    &&& r.severity == spec_severity(fm, thr, e)
    &&& r.confidence == spec_confidence(fm, thr, e)
    &&& r.details@ == spec_details(fm, thr, e)
}

/// The threat detection and anomaly scoring engine: the pattern
/// catalog, the per-source frequency counters, the aggregation store,
/// and the security log.
pub struct Engine {
    rules: Vec<Rule>,
    freq: FrequencyTracker,
    agg: CountMap,
    security_logs: Vec<SecurityLog>,
}

impl Engine {
    /// Internal consistency: the catalog is exactly the pattern
    /// catalog and the two counter tables are consistent.
    pub closed spec fn wf(&self) -> bool {
        &&& rules_wf(self.rules@)
        &&& self.freq.wf()
        &&& self.freq.spec_threshold() == FREQUENCY_THRESHOLD
        &&& self.agg.wf()
    }

    /// The per-source observation counters.
    pub closed spec fn freq_view(&self) -> Map<Seq<char>, nat> {
        self.freq@
    }

    /// The per-description occurrence counters.
    pub closed spec fn agg_view(&self) -> Map<Seq<char>, nat> {
        self.agg@
    }

    /// Observations absorbed by the frequency tracker so far.
    pub closed spec fn freq_total(&self) -> nat {
        self.freq.total()
    }

    /// Increments absorbed by the aggregation store so far.
    pub closed spec fn agg_total(&self) -> nat {
        self.agg.total()
    }

    /// The recorded security events.
    pub closed spec fn logs_view(&self) -> Seq<SecurityLog> {
        self.security_logs@
    }

    /// The aggregation store as description/count pairs.
    pub closed spec fn summary_view(&self) -> Seq<(Seq<char>, u64)> {
        self.agg.pairs_view()
    }

    /// A fresh engine: the catalog loaded, every counter empty.
    pub fn new() -> (r: Engine)
        ensures
            r.wf(),
            r.freq_view() == Map::<Seq<char>, nat>::empty(),
            r.agg_view() == Map::<Seq<char>, nat>::empty(),
            r.freq_total() == 0,
            r.agg_total() == 0,
            r.logs_view() == Seq::<SecurityLog>::empty(),
            r.summary_view() == Seq::<(Seq<char>, u64)>::empty(),
    {
        Engine {
            rules: catalog(),
            freq: FrequencyTracker::new(),
            agg: CountMap::new(),
            security_logs: Vec::new(),
        }
    }

    /// Classifies one event: the pattern matcher is consulted first;
    /// on a hit the scorer's severity and confidence are taken and the
    /// event is terminal. On a miss the frequency tracker observes the
    /// source once; beyond the threshold the event is a
    /// frequency-triggered threat, otherwise a non-threat. A threat's
    /// description is tallied in the aggregation store.
    pub fn analyze_log_entry(&mut self, log: &LogEntry) -> (r: ThreatDetectionResult)
        requires
            old(self).wf(),
            old(self).freq_total() < u64::MAX,
            old(self).agg_total() < u64::MAX,
        ensures
            final(self).wf(),
            result_matches(r, old(self).freq_view(), FREQUENCY_THRESHOLD, *log),
            final(self).freq_view() == spec_freq_next(old(self).freq_view(), *log),
            final(self).agg_view() == spec_agg_next(
                old(self).agg_view(),
                old(self).freq_view(),
                FREQUENCY_THRESHOLD,
                *log,
            ),
            final(self).freq_total() <= old(self).freq_total() + 1,
            final(self).agg_total() <= old(self).agg_total() + 1,
            final(self).logs_view() == old(self).logs_view(),
    {
        let m = chars_of(log.message.as_str());
        match match_in_catalog(&self.rules, &m) {
            Some(i) => {
                proof {
                    lemma_first_match_from(log.message@, 0, i as int);
                }
                let rule = &self.rules[i];
                let category = category_name(rule.category);
                let confidence = base_confidence(rule.category);
                let severity = rule.severity_hint;
                let mut details = category_name(rule.category);
                details.append(": ");
                details.append(rule.phrase.as_str());
                details.append(" in ");
                details.append(log.message.as_str());
                let _ = self.agg.bump(details.as_str());
                ThreatDetectionResult { is_threat: true, category, severity, confidence, details }
            },
            None => {
                let count = self.freq.observe(log.source.as_str());
                if self.freq.threshold_exceeded(count) {
                    let mut details = "unusual_frequency: repeated activity in ".to_owned();
                    details.append(log.source.as_str());
                    let _ = self.agg.bump(details.as_str());
                    ThreatDetectionResult {
                        is_threat: true,
                        category: "unusual_frequency".to_owned(),
                        severity: Severity::Medium,
                        confidence: 60,
                        details,
                    }
                } else {
                    ThreatDetectionResult {
                        is_threat: false,
                        category: "normal".to_owned(),
                        severity: Severity::Medium,
                        confidence: 95,
                        details: "No threat detected".to_owned(),
                    }
                }
            },
        }
    }

    /// Classifies a whole batch, in order. Every event is classified —
    /// there are no partial batches — and every threat description is
    /// tallied.
    pub fn classify_batch(&mut self, events: &Vec<LogEntry>) -> (r: Vec<ThreatDetectionResult>)
        requires
            old(self).wf(),
            old(self).freq_total() + events@.len() <= u64::MAX,
            old(self).agg_total() + events@.len() <= u64::MAX,
        ensures
            final(self).wf(),
            r@.len() == events@.len(),
            forall|i: int|
                0 <= i < events@.len() ==> result_matches(
                    #[trigger] r@[i],
                    spec_freq_after(old(self).freq_view(), events@, i),
                    FREQUENCY_THRESHOLD,
                    events@[i],
                ),
            final(self).freq_view() == spec_freq_after(
                old(self).freq_view(),
                events@,
                events@.len() as int,
            ),
            final(self).agg_view() == spec_agg_after(
                old(self).agg_view(),
                old(self).freq_view(),
                FREQUENCY_THRESHOLD,
                events@,
                events@.len() as int,
            ),
            final(self).logs_view() == old(self).logs_view(),
    {
        let ghost fm0 = old(self).freq_view();
        let ghost am0 = old(self).agg_view();
        let ghost ft0 = old(self).freq_total();
        let ghost at0 = old(self).agg_total();
        let n = events.len();
        let mut results: Vec<ThreatDetectionResult> = Vec::new();
        let mut i: usize = 0;
        while i < n
            invariant
                self.wf(),
                n == events@.len(),
                i <= n,
                results@.len() == i,
                fm0 == old(self).freq_view(),
                am0 == old(self).agg_view(),
                ft0 == old(self).freq_total(),
                at0 == old(self).agg_total(),
                ft0 + n <= u64::MAX,
                at0 + n <= u64::MAX,
                self.freq_view() == spec_freq_after(fm0, events@, i as int),
                self.agg_view() == spec_agg_after(am0, fm0, FREQUENCY_THRESHOLD, events@, i as int),
                self.freq_total() <= ft0 + i,
                self.agg_total() <= at0 + i,
                self.logs_view() == old(self).logs_view(),
                forall|j: int|
                    0 <= j < i ==> result_matches(
                        #[trigger] results@[j],
                        spec_freq_after(fm0, events@, j),
                        FREQUENCY_THRESHOLD,
                        events@[j],
                    ),
            decreases n - i,
        {
            let r = self.analyze_log_entry(&events[i]);
            results.push(r);
            i = i + 1;
        }
        results
    }

    /// How many observations the frequency tracker has absorbed.
    pub fn frequency_observations(&self) -> (r: u64)
        ensures
            r as nat == self.freq_total(),
    {
        self.freq.observations()
    }

    /// How many increments the aggregation store has absorbed.
    pub fn aggregation_increments(&self) -> (r: u64)
        ensures
            r as nat == self.agg_total(),
    {
        self.agg.increments()
    }

    /// A read-only snapshot of the aggregation store: each distinct
    /// threat description with its occurrence count. Two snapshots
    /// taken without an intervening classification are identical.
    pub fn summarize(&self) -> (r: Vec<(String, u64)>)
        requires
            self.wf(),
        ensures
            r@.map_values(|p: (String, u64)| (p.0@, p.1)) == self.summary_view(),
            forall|i: int|
                0 <= i < r@.len() ==> self.agg_view().contains_key((#[trigger] r@[i]).0@)
                    && self.agg_view()[r@[i].0@] == r@[i].1 as nat,
            forall|k: Seq<char>|
                self.agg_view().contains_key(k) ==> exists|i: int|
                    0 <= i < r@.len() && (#[trigger] r@[i]).0@ == k,
            forall|i: int, j: int|
                0 <= i < j < r@.len() ==> (#[trigger] r@[i]).0@ != (#[trigger] r@[j]).0@,
    {
        self.agg.pairs()
    }

    /// Clears the frequency counters and the aggregation store
    /// together, atomically: neither moves without the other, so a
    /// summary can never refer to a dropped frequency baseline.
    pub fn reset(&mut self)
        requires
            old(self).wf(),
        ensures
            final(self).wf(),
            final(self).freq_view() == Map::<Seq<char>, nat>::empty(),
            final(self).agg_view() == Map::<Seq<char>, nat>::empty(),
            final(self).freq_total() == 0,
            final(self).agg_total() == 0,
            final(self).summary_view() == Seq::<(Seq<char>, u64)>::empty(),
            final(self).logs_view() == old(self).logs_view(),
    {
        self.freq.clear();
        self.agg.clear();
    }

    /// Records one security event with the timestamp the caller
    /// observed.
    pub fn log_security_event(
        &mut self,
        event_type: String,
        details: String,
        severity: String,
        timestamp: u64,
    )
        ensures
            final(self).wf() == old(self).wf(),
            final(self).logs_view().len() == old(self).logs_view().len() + 1,
            forall|i: int|
                0 <= i < old(self).logs_view().len() ==> final(self).logs_view()[i] == old(
                    self,
                ).logs_view()[i],
            final(self).logs_view().last().timestamp == timestamp,
            final(self).logs_view().last().event_type == event_type,
            final(self).logs_view().last().details == details,
            final(self).logs_view().last().severity == severity,
            final(self).freq_view() == old(self).freq_view(),
            final(self).agg_view() == old(self).agg_view(),
            final(self).freq_total() == old(self).freq_total(),
            final(self).agg_total() == old(self).agg_total(),
    {
        self.security_logs.push(SecurityLog { timestamp, event_type, details, severity });
    }

    /// Copies the recorded security events out.
    pub fn get_security_logs(&self) -> (r: Vec<SecurityLog>)
        ensures
            r@.len() == self.logs_view().len(),
            forall|i: int|
                0 <= i < r@.len() ==> (#[trigger] r@[i]).timestamp == self.logs_view()[i].timestamp
                    && r@[i].event_type@ == self.logs_view()[i].event_type@ && r@[i].details@
                    == self.logs_view()[i].details@ && r@[i].severity@
                    == self.logs_view()[i].severity@,
    {
        let n = self.security_logs.len();
        let mut r: Vec<SecurityLog> = Vec::new();
        let mut i: usize = 0;
        while i < n
            invariant
                n == self.security_logs@.len(),
                i <= n,
                r@.len() == i,
                forall|j: int|
                    0 <= j < i ==> (#[trigger] r@[j]).timestamp == self.security_logs@[j].timestamp
                        && r@[j].event_type@ == self.security_logs@[j].event_type@ && r@[j].details@
                        == self.security_logs@[j].details@ && r@[j].severity@
                        == self.security_logs@[j].severity@,
            decreases n - i,
        {
            let e = &self.security_logs[i];
            r.push(
                SecurityLog {
                    timestamp: e.timestamp,
                    event_type: e.event_type.clone(),
                    details: e.details.clone(),
                    severity: e.severity.clone(),
                },
            );
            i = i + 1;
        }
        r
    }

    /// Drops the recorded security events.
    pub fn clear_logs(&mut self)
        ensures
            final(self).wf() == old(self).wf(),
            final(self).logs_view() == Seq::<SecurityLog>::empty(),
            final(self).freq_view() == old(self).freq_view(),
            final(self).agg_view() == old(self).agg_view(),
            final(self).freq_total() == old(self).freq_total(),
            final(self).agg_total() == old(self).agg_total(),
    {
        self.security_logs.clear();
    }
}

/// For every message that, ignoring ASCII letter case, contains a
/// Critical-tier catalog phrase and contains no earlier catalog
/// phrase, classification reports a threat of severity Critical —
/// whatever the surrounding text, the letter case of the message, and
/// the tracker state. (A message that also holds an earlier catalog
/// phrase takes that phrase's rating instead: first match wins.)
pub proof fn lemma_critical_phrase_scores_critical(
    fm: Map<Seq<char>, nat>,
    thr: u64,
    e: LogEntry,
    i: int,
)
    requires
        0 <= i < spec_phrases().len(),
        crate::text::contains_ci(e.message@, spec_phrases()[i]),
        crate::catalog::spec_severity_of(spec_phrases()[i]) == Severity::Critical,
        forall|k: int|
            0 <= k < i ==> !crate::text::contains_ci(e.message@, #[trigger] spec_phrases()[k]),
    ensures
        spec_is_threat(fm, thr, e),
        spec_severity(fm, thr, e) == Severity::Critical,
{
    crate::matcher::lemma_first_match_is(e.message@, i);
}

/// When the first `k` events of a batch all miss the catalog and all
/// name one source, that source's counter grows by exactly one per
/// event.
pub proof fn lemma_freq_after_all_miss(
    fm: Map<Seq<char>, nat>,
    events: Seq<LogEntry>,
    s: Seq<char>,
    k: int,
)
    requires
        0 <= k <= events.len(),
        forall|i: int|
            0 <= i < k ==> spec_match((#[trigger] events[i]).message@) is None && events[i].source@
                == s,
    ensures
        count_in(spec_freq_after(fm, events, k), s) == count_in(fm, s) + k,
    decreases k,
{
    if k > 0 {
        lemma_freq_after_all_miss(fm, events, s, k - 1);
    }
}

/// From a fresh engine, consecutive events from one source whose
/// messages all miss the catalog are classified as frequency threats
/// exactly from the moment the source's updated count passes the
/// threshold: the i-th such event (counting from zero) is a threat
/// exactly when `i + 1 > thr`.
pub proof fn lemma_repeated_source_threshold(
    events: Seq<LogEntry>,
    s: Seq<char>,
    thr: u64,
    i: int,
)
    requires
        0 <= i < events.len(),
        forall|j: int|
            0 <= j <= i ==> spec_match((#[trigger] events[j]).message@) is None && events[j].source@
                == s,
    ensures
        spec_is_threat(spec_freq_after(Map::empty(), events, i), thr, events[i]) == (i + 1 > thr),
{
    lemma_freq_after_all_miss(Map::empty(), events, s, i);
}

/// Two aggregation summaries taken from one engine state, with no
/// intervening classification, are identical.
pub proof fn lemma_summarize_idempotent(
    e: &Engine,
    r1: Seq<(Seq<char>, u64)>,
    r2: Seq<(Seq<char>, u64)>,
)
    requires
        r1 == e.summary_view(),
        r2 == e.summary_view(),
    ensures
        r1 == r2,
{
}

} // verus!
