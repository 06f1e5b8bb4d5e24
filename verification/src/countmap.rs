//! A counter table keyed by text: the shared representation of the
//! frequency tracker's per-source counters and of the aggregation
//! store's per-description counters.
//!
//! Counters are non-negative and only ever incremented; clearing
//! happens only as a whole-table reset.

use vstd::prelude::*;

verus! {

/// Some entry of `s` carries the key `k`.
pub open spec fn has_key_at(s: Seq<(String, u64)>, k: Seq<char>) -> bool {
    exists|i: int| 0 <= i < s.len() && s[i].0@ == k
}

/// The index of the entry of `s` carrying the key `k`.
pub open spec fn idx_of(s: Seq<(String, u64)>, k: Seq<char>) -> int {
    choose|i: int| 0 <= i < s.len() && s[i].0@ == k
}

/// The count stored for the key `k`.
pub open spec fn val_at(s: Seq<(String, u64)>, k: Seq<char>) -> nat {
    s[idx_of(s, k)].1 as nat
}

/// No two entries of `s` carry the same key.
pub open spec fn keys_unique(s: Seq<(String, u64)>) -> bool {
    forall|i: int, j: int|
        0 <= i < j < s.len() ==> (#[trigger] s[i]).0@ != (#[trigger] s[j]).0@
}

/// With unique keys, the entry at any index carrying `k` determines
/// the stored count.
proof fn lemma_val_at(s: Seq<(String, u64)>, k: Seq<char>, i: int)
    requires
        keys_unique(s),
        0 <= i < s.len(),
        s[i].0@ == k,
    ensures
        has_key_at(s, k),
        idx_of(s, k) == i,
        val_at(s, k) == s[i].1 as nat,
{
    assert(has_key_at(s, k));
    let j = idx_of(s, k);
    assert(0 <= j < s.len() && s[j].0@ == k);
}

/// A table of non-negative counters keyed by text.
pub struct CountMap {
    entries: Vec<(String, u64)>,
    total: u64,
}

impl CountMap {
    /// Internal consistency: keys are unique, and no single counter
    /// exceeds the total number of increments.
    pub closed spec fn wf(&self) -> bool {
        &&& keys_unique(self.entries@)
        &&& forall|i: int|
            0 <= i < self.entries@.len() ==> (#[trigger] self.entries@[i]).1 as nat
                <= self.total as nat
    }

    /// The mapping from keys to counts.
    pub closed spec fn view(&self) -> Map<Seq<char>, nat> {
        Map::new(
            |k: Seq<char>| has_key_at(self.entries@, k),
            |k: Seq<char>| val_at(self.entries@, k),
        )
    }

    /// How many increments the table has absorbed since it was last
    /// cleared.
    pub closed spec fn total(&self) -> nat {
        self.total as nat
    }

    /// The table's entries as key/count pairs, in insertion order.
    pub closed spec fn pairs_view(&self) -> Seq<(Seq<char>, u64)> {
        self.entries@.map_values(|p: (String, u64)| (p.0@, p.1))
    }

    /// The count for `k`, zero when the key is absent.
    pub open spec fn count(&self, k: Seq<char>) -> nat {
        if self@.contains_key(k) {
            self@[k]
        } else {
            0
        }
    }

    /// An empty table.
    pub fn new() -> (r: CountMap)
        ensures
            r.wf(),
            r@ == Map::<Seq<char>, nat>::empty(),
            r.total() == 0,
            r.pairs_view() == Seq::<(Seq<char>, u64)>::empty(),
    {
        let r = CountMap { entries: Vec::new(), total: 0 };
        proof {
            assert(r@ =~= Map::<Seq<char>, nat>::empty());
            assert(r.pairs_view() =~= Seq::<(Seq<char>, u64)>::empty());
        }
        r
    }

    /// Drops every counter: a whole-table reset, never a partial one.
    pub fn clear(&mut self)
        ensures
            final(self).wf(),
            final(self)@ == Map::<Seq<char>, nat>::empty(),
            final(self).total() == 0,
            final(self).pairs_view() == Seq::<(Seq<char>, u64)>::empty(),
    {
        self.entries.clear();
        self.total = 0;
        proof {
            assert(self@ =~= Map::<Seq<char>, nat>::empty());
            assert(self.pairs_view() =~= Seq::<(Seq<char>, u64)>::empty());
        }
    }

    /// Looks the key up; absent keys count zero.
    pub fn get(&self, key: &str) -> (r: u64)
        requires
            self.wf(),
        ensures
            r as nat == self.count(key@),
    {
        let owned = key.to_owned();
        let n = self.entries.len();
        let mut i: usize = 0;
        while i < n
            invariant
                self.wf(),
                n == self.entries@.len(),
                i <= n,
                owned@ == key@,
                forall|j: int| 0 <= j < i ==> (#[trigger] self.entries@[j]).0@ != key@,
            decreases n - i,
        {
            if self.entries[i].0 == owned {
                proof {
                    lemma_val_at(self.entries@, key@, i as int);
                }
                return self.entries[i].1;
            }
            i = i + 1;
        }
        proof {
            assert(!has_key_at(self.entries@, key@));
        }
        0
    }

    /// Increments the counter for `key`, creating it at zero first when
    /// absent, and returns the updated count.
    pub fn bump(&mut self, key: &str) -> (r: u64)
        requires
            old(self).wf(),
            old(self).total() < u64::MAX,
        ensures
            final(self).wf(),
            final(self)@ == old(self)@.insert(key@, old(self).count(key@) + 1),
            r as nat == old(self).count(key@) + 1,
            final(self).total() == old(self).total() + 1,
    {
        let ghost s_old = self.entries@;
        let owned = key.to_owned();
        let n = self.entries.len();
        let mut i: usize = 0;
        while i < n
            invariant
                self.wf(),
                self.entries@ == s_old,
                s_old == old(self).entries@,
                self.total == old(self).total,
                old(self).total < u64::MAX,
                n == s_old.len(),
                i <= n,
                owned@ == key@,
                forall|j: int| 0 <= j < i ==> (#[trigger] s_old[j]).0@ != key@,
            decreases n - i,
        {
            if self.entries[i].0 == owned {
                proof {
                    lemma_val_at(s_old, key@, i as int);
                }
                let c = self.entries[i].1;
                proof {
                    assert((#[trigger] s_old[i as int]).1 as nat <= self.total as nat);
                    assert(self.total < u64::MAX);
                }
                self.entries.set(i, (owned, c + 1));
                self.total = self.total + 1;
                proof {
                    let s_new = self.entries@;
                    assert forall|k2: Seq<char>| has_key_at(s_new, k2) implies has_key_at(
                        s_old,
                        k2,
                    ) by {
                        let j = choose|j: int| 0 <= j < s_new.len() && s_new[j].0@ == k2;
                        assert(s_old[j].0@ == k2);
                    }
                    assert forall|k2: Seq<char>| has_key_at(s_old, k2) implies has_key_at(
                        s_new,
                        k2,
                    ) by {
                        let j = choose|j: int| 0 <= j < s_old.len() && s_old[j].0@ == k2;
                        assert(s_new[j].0@ == k2);
                    }
                    assert(keys_unique(s_new)) by {
                        assert forall|a: int, b: int| 0 <= a < b < s_new.len() implies (
                        #[trigger] s_new[a]).0@ != (#[trigger] s_new[b]).0@ by {
                            assert(s_old[a].0@ != s_old[b].0@);
                        }
                    }
                    assert(self.wf());
                    assert forall|k2: Seq<char>| has_key_at(s_new, k2) && k2 != key@ implies
                        val_at(s_new, k2) == val_at(s_old, k2) by {
                        let j = choose|j: int| 0 <= j < s_new.len() && s_new[j].0@ == k2;
                        assert(j != i as int);
                        lemma_val_at(s_new, k2, j);
                        lemma_val_at(s_old, k2, j);
                    }
                    lemma_val_at(s_new, key@, i as int);
                    assert(self@ =~= old(self)@.insert(key@, old(self).count(key@) + 1));
                }
                return c + 1;
            }
            i = i + 1;
        }
        proof {
            assert(!has_key_at(s_old, key@));
        }
        self.entries.push((owned, 1));
        self.total = self.total + 1;
        proof {
            let s_new = self.entries@;
            assert(s_new[s_old.len() as int].0@ == key@);
            assert(keys_unique(s_new)) by {
                assert forall|a: int, b: int| 0 <= a < b < s_new.len() implies (
                #[trigger] s_new[a]).0@ != (#[trigger] s_new[b]).0@ by {
                    if b < s_old.len() {
                        assert(s_old[a].0@ != s_old[b].0@);
                    } else {
                        assert(s_old[a].0@ != key@);
                    }
                }
            }
            assert(self.wf());
            assert forall|k2: Seq<char>| has_key_at(s_new, k2) && k2 != key@ implies has_key_at(
                s_old,
                k2,
            ) && val_at(s_new, k2) == val_at(s_old, k2) by {
                let j = choose|j: int| 0 <= j < s_new.len() && s_new[j].0@ == k2;
                assert(j != s_old.len() as int);
                assert(s_old[j].0@ == k2);
                lemma_val_at(s_new, k2, j);
                lemma_val_at(s_old, k2, j);
            }
            assert forall|k2: Seq<char>| has_key_at(s_old, k2) implies has_key_at(s_new, k2) by {
                let j = choose|j: int| 0 <= j < s_old.len() && s_old[j].0@ == k2;
                assert(s_new[j].0@ == k2);
            }
            lemma_val_at(s_new, key@, s_old.len() as int);
            assert(self@ =~= old(self)@.insert(key@, old(self).count(key@) + 1));
        }
        1
    }

    /// How many increments the table has absorbed since it was last
    /// cleared.
    pub fn increments(&self) -> (r: u64)
        ensures
            r as nat == self.total(),
    {
        self.total
    }

    /// Copies the table out as key/count pairs.
    pub fn pairs(&self) -> (r: Vec<(String, u64)>)
        requires
            self.wf(),
        ensures
            r@.map_values(|p: (String, u64)| (p.0@, p.1)) == self.pairs_view(),
            forall|i: int|
                0 <= i < r@.len() ==> self@.contains_key((#[trigger] r@[i]).0@) && self@[r@[i].0@]
                    == r@[i].1 as nat,
            forall|k: Seq<char>|
                self@.contains_key(k) ==> exists|i: int| 0 <= i < r@.len() && (#[trigger] r@[i]).0@
                    == k,
            forall|i: int, j: int|
                0 <= i < j < r@.len() ==> (#[trigger] r@[i]).0@ != (#[trigger] r@[j]).0@,
    {
        let n = self.entries.len();
        let mut r: Vec<(String, u64)> = Vec::new();
        let mut i: usize = 0;
        while i < n
            invariant
                self.wf(),
                n == self.entries@.len(),
                i <= n,
                r@.len() == i,
                forall|j: int|
                    0 <= j < i ==> (#[trigger] r@[j]).0@ == self.entries@[j].0@ && r@[j].1
                        == self.entries@[j].1,
            decreases n - i,
        {
            let k = self.entries[i].0.clone();
            let c = self.entries[i].1;
            r.push((k, c));
            i = i + 1;
        }
        proof {
            assert(r@.map_values(|p: (String, u64)| (p.0@, p.1)) =~= self.pairs_view());
            assert forall|j: int|
                0 <= j < r@.len() implies self@.contains_key((#[trigger] r@[j]).0@) && self@[r@[j].0@]
                == r@[j].1 as nat by {
                lemma_val_at(self.entries@, r@[j].0@, j);
            }
            assert forall|k: Seq<char>| self@.contains_key(k) implies exists|i2: int|
                0 <= i2 < r@.len() && (#[trigger] r@[i2]).0@ == k by {
                let j = idx_of(self.entries@, k);
                assert(r@[j].0@ == k);
            }
        }
        r
    }
}

} // verus!
