//! The frequency tracker: a mutable mapping from source identifier to
//! an observation counter, incremented once per processed event.
//!
//! Counters are monotonically non-decreasing per source for the
//! tracker's lifetime — there is no decay and no eviction; this is an
//! explicit limitation, not an oversight. The only way down is
//! `clear`, which atomically drops all sources, never a subset.

use vstd::prelude::*;

use crate::countmap::CountMap;

verus! {

/// The count recorded for `k` in `m`; zero when `k` is absent.
pub open spec fn count_in(m: Map<Seq<char>, nat>, k: Seq<char>) -> nat {
    if m.contains_key(k) {
        m[k]
    } else {
        0
    }
}

/// The effect of one observation of source `s` on the counter map.
pub open spec fn spec_observe(m: Map<Seq<char>, nat>, s: Seq<char>) -> Map<Seq<char>, nat> {
    m.insert(s, count_in(m, s) + 1)
}

/// The counter map after `n` consecutive observations of source `s`.
pub open spec fn spec_observe_n(m: Map<Seq<char>, nat>, s: Seq<char>, n: nat) -> Map<
    Seq<char>,
    nat,
>
    decreases n,
{
    if n == 0 {
        m
    } else {
        spec_observe(spec_observe_n(m, s, (n - 1) as nat), s)
    }
}

/// After `n` consecutive observations of one source, with no
/// intervening clear, the source's counter has grown by exactly `n`,
/// and no other source's counter has moved.
pub proof fn lemma_observe_n_counts(m: Map<Seq<char>, nat>, s: Seq<char>, n: nat)
    ensures
        count_in(spec_observe_n(m, s, n), s) == count_in(m, s) + n,
        forall|k: Seq<char>|
            k != s ==> count_in(spec_observe_n(m, s, n), k) == count_in(m, k),
    decreases n,
{
    if n > 0 {
        lemma_observe_n_counts(m, s, (n - 1) as nat);
    }
}

/// From a fresh tracker, `n` consecutive observations of one source
/// leave its counter at exactly `n`.
pub proof fn lemma_observe_n_from_empty(s: Seq<char>, n: nat)
    ensures
        count_in(spec_observe_n(Map::empty(), s, n), s) == n,
{
    lemma_observe_n_counts(Map::empty(), s, n);
}

/// Per-source observation counters with a suspicion threshold.
pub struct FrequencyTracker {
    counts: CountMap,
    threshold: u64,
}

impl FrequencyTracker {
    /// Internal consistency of the counter table.
    pub closed spec fn wf(&self) -> bool {
        self.counts.wf()
    }

    /// The mapping from source identifier to observation count.
    pub closed spec fn view(&self) -> Map<Seq<char>, nat> {
        self.counts@
    }

    /// The configured suspicion threshold.
    pub closed spec fn spec_threshold(&self) -> u64 {
        self.threshold
    }

    /// How many observations the tracker has absorbed since it was
    /// created or last cleared.
    pub closed spec fn total(&self) -> nat {
        self.counts.total()
    }

    /// The current count for one source.
    pub open spec fn count(&self, s: Seq<char>) -> nat {
        count_in(self@, s)
    }

    /// A tracker with the default threshold.
    pub fn new() -> (r: FrequencyTracker)
        ensures
            r.wf(),
            r@ == Map::<Seq<char>, nat>::empty(),
            r.spec_threshold() == crate::FREQUENCY_THRESHOLD,
            r.total() == 0,
    {
        FrequencyTracker { counts: CountMap::new(), threshold: crate::FREQUENCY_THRESHOLD }
    }

    /// A tracker with a chosen threshold.
    pub fn with_threshold(threshold: u64) -> (r: FrequencyTracker)
        ensures
            r.wf(),
            r@ == Map::<Seq<char>, nat>::empty(),
            r.spec_threshold() == threshold,
            r.total() == 0,
    {
        FrequencyTracker { counts: CountMap::new(), threshold }
    }

    /// Atomically increments and returns the updated count for
    /// `source`, creating an entry first when absent. Called at most
    /// once per processed event, so that the count always equals the
    /// number of events attributed to the source so far.
    pub fn observe(&mut self, source: &str) -> (r: u64)
        requires
            old(self).wf(),
            old(self).total() < u64::MAX,
        ensures
            final(self).wf(),
            final(self)@ == spec_observe(old(self)@, source@),
            r as nat == old(self).count(source@) + 1,
            final(self).spec_threshold() == old(self).spec_threshold(),
            final(self).total() == old(self).total() + 1,
    {
        self.counts.bump(source)
    }

    /// How many observations the tracker has absorbed since it was
    /// created or last cleared.
    pub fn observations(&self) -> (r: u64)
        ensures
            r as nat == self.total(),
    {
        self.counts.increments()
    }

    /// The current count for `source`, without observing it.
    pub fn current(&self, source: &str) -> (r: u64)
        requires
            self.wf(),
        ensures
            r as nat == self.count(source@),
    {
        self.counts.get(source)
    }

    /// True when `count` is beyond the tracker's threshold: repeated
    /// activity from one source is then itself treated as suspicious.
    pub fn threshold_exceeded(&self, count: u64) -> (r: bool)
        ensures
            r == (count > self.spec_threshold()),
    {
        count > self.threshold
    }

    /// Resets all sources at once: an explicit administrative
    /// operation, never an implicit one, and never a partial one.
    pub fn clear(&mut self)
        ensures
            final(self).wf(),
            final(self)@ == Map::<Seq<char>, nat>::empty(),
            final(self).spec_threshold() == old(self).spec_threshold(),
            final(self).total() == 0,
    {
        self.counts.clear();
    }
}

} // verus!
