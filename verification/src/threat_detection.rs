//! A stateless scan of a batch of events against the pattern catalog,
//! reporting one line per event whose message holds a catalog phrase.

use vstd::prelude::*;

use crate::api::LogEntry;
use crate::catalog::catalog;
use crate::catalog::rules_wf;
use crate::matcher::spec_match;
use crate::matcher::match_in_catalog;
use crate::text::chars_of;

verus! {

/// The report lines for a batch: one line, `Threat found: <message>`,
/// per event in whose message a catalog phrase occurs, in batch order.
pub open spec fn spec_threat_lines(logs: Seq<LogEntry>) -> Seq<Seq<char>>
    decreases logs.len(),
{
    if logs.len() == 0 {
        Seq::empty()
    } else {
        spec_threat_lines(logs.drop_last()) + if spec_match(logs.last().message@) is Some {
            seq!["Threat found: "@ + logs.last().message@]
        } else {
            Seq::empty()
        }
    }
}

/// Scans each event's message against the pattern catalog, ignoring
/// ASCII letter case, and reports one line per event in which a
/// catalog phrase occurs.
pub fn detect_threats(logs: Vec<LogEntry>) -> (r: Vec<String>)
    ensures
        r@.map_values(|t: String| t@) == spec_threat_lines(logs@),
{
    let rules = catalog();
    let n = logs.len();
    let mut out: Vec<String> = Vec::new();
    let mut i: usize = 0;
    while i < n
        invariant
            rules_wf(rules@),
            n == logs@.len(),
            i <= n,
            out@.map_values(|t: String| t@) == spec_threat_lines(logs@.subrange(0, i as int)),
        decreases n - i,
    {
        let m = chars_of(logs[i].message.as_str());
        let hit = match_in_catalog(&rules, &m);
        if hit.is_some() {
            let mut line = "Threat found: ".to_owned();
            line.append(logs[i].message.as_str());
            out.push(line);
        }
        i = i + 1;
        proof {
            let pref = logs@.subrange(0, i as int);
            assert(pref.drop_last() =~= logs@.subrange(0, i as int - 1));
            assert(pref.last() == logs@[i as int - 1]);
            assert(out@.map_values(|t: String| t@) =~= spec_threat_lines(pref));
        }
    }
    proof {
        assert(logs@.subrange(0, n as int) =~= logs@);
    }
    out
}

} // verus!
