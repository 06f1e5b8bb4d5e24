//! The content-analysis collaborator's side of the engine: which
//! events are worth a second opinion, what is asked, and how a
//! returned verdict is read.
//!
//! The collaborator itself (an external model or reputation service)
//! lives outside the engine; its verdict is consumed here only as
//! additional evidence, from plain text, whatever it says.

use vstd::prelude::*;

use crate::api::LogEntry;
use crate::catalog::Severity;
use crate::engine::ThreatDetectionResult;
use crate::text::contains_seq;
use crate::text::str_contains_eq;

verus! {

/// The identifying fields of an event.
pub open spec fn spec_entry_view(e: LogEntry) -> (Seq<char>, u64, Seq<char>) {
    (e.message@, e.timestamp, e.source@)
}

/// A classification is ambiguous when its confidence lies strictly
/// inside the (0.40, 0.80) band, in hundredths.
pub open spec fn spec_ambiguous(r: ThreatDetectionResult) -> bool {
    40 < r.confidence < 80
}

/// The events of a batch whose classifications are ambiguous, among
/// the first `k`, in batch order.
pub open spec fn spec_ambiguous_events(
    logs: Seq<LogEntry>,
    results: Seq<ThreatDetectionResult>,
    k: int,
) -> Seq<(Seq<char>, u64, Seq<char>)>
    decreases k,
{
    if k <= 0 {
        Seq::empty()
    } else {
        spec_ambiguous_events(logs, results, k - 1) + if spec_ambiguous(results[k - 1]) {
            seq![spec_entry_view(logs[k - 1])]
        } else {
            Seq::empty()
        }
    }
}

/// Picks the events whose classifications are ambiguous: those, and
/// only those, are handed to the content-analysis collaborator. When
/// none qualifies, the local classifications stand as final.
pub fn select_ambiguous(logs: &Vec<LogEntry>, results: &Vec<ThreatDetectionResult>) -> (r: Vec<
    LogEntry,
>)
    requires
        logs@.len() == results@.len(),
    ensures
        r@.map_values(|e: LogEntry| spec_entry_view(e)) == spec_ambiguous_events(
            logs@,
            results@,
            logs@.len() as int,
        ),
{
    let n = logs.len();
    let mut out: Vec<LogEntry> = Vec::new();
    let mut i: usize = 0;
    while i < n
        invariant
            n == logs@.len(),
            logs@.len() == results@.len(),
            i <= n,
            out@.map_values(|e: LogEntry| spec_entry_view(e)) == spec_ambiguous_events(
                logs@,
                results@,
                i as int,
            ),
        decreases n - i,
    {
        if 40 < results[i].confidence && results[i].confidence < 80 {
            let e = &logs[i];
            out.push(
                LogEntry {
                    message: e.message.clone(),
                    timestamp: e.timestamp,
                    source: e.source.clone(),
                },
            );
        }
        i = i + 1;
        proof {
            assert(out@.map_values(|e: LogEntry| spec_entry_view(e)) =~= spec_ambiguous_events(
                logs@,
                results@,
                i as int,
            ));
        }
    }
    out
}

/// The question put to the collaborator for one event.
pub fn model_prompt(log: &LogEntry) -> (r: String)
    ensures
        r@ == "Analyze this log entry for security threats: "@ + log.message@ + "\nSource: "@
            + log.source@,
{
    let mut p = "Analyze this log entry for security threats: ".to_owned();
    p.append(log.message.as_str());
    p.append("\nSource: ");
    p.append(log.source.as_str());
    p
}

/// The category read from a collaborator's verdict text.
pub open spec fn spec_verdict_category(v: Seq<char>) -> Seq<char> {
    if contains_seq(v, "injection"@) {
        "sql_injection"@
    } else if contains_seq(v, "ddos"@) {
        "ddos_attack"@
    } else {
        "unknown_threat"@
    }
}

/// Reads a collaborator's verdict, whatever came back: the event is a
/// threat exactly when the verdict mentions "threat"; the category is
/// read from the verdict text; the confidence is the collaborator
/// band's fixed 0.85 (in hundredths); the verdict itself is kept as
/// the details. The severity is Medium: a collaborator verdict is
/// never rated by the catalog.
pub fn interpret_model_verdict(verdict: &str) -> (r: ThreatDetectionResult)
    ensures
        r.is_threat == contains_seq(verdict@, "threat"@),
        r.category@ == spec_verdict_category(verdict@),
        r.severity == Severity::Medium,
        r.confidence == 85,
        r.details@ == verdict@,
{
    let category: String = if str_contains_eq(verdict, "injection") {
        "sql_injection".to_owned()
    } else if str_contains_eq(verdict, "ddos") {
        "ddos_attack".to_owned()
    } else {
        "unknown_threat".to_owned()
    };
    ThreatDetectionResult {
        is_threat: str_contains_eq(verdict, "threat"),
        category,
        severity: Severity::Medium,
        confidence: 85,
        details: verdict.to_owned(),
    }
}

} // verus!
