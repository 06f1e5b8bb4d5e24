//! The wallet verification records: the decision half of the identity
//! check. The inter-canister verification call itself is the host
//! boundary's work; its outcome, whatever came back, is recorded or
//! reported here.

use vstd::prelude::*;

use crate::dec::spec_digits;
use crate::dec::dec_u64;

verus! {

/// The error carried back from a failed external call: the rejection
/// code and the message, propagated unmodified and never retried here
/// — retry policy belongs to the calling layer.
pub struct CallError {
    code: u32,
    message: String,
}

impl CallError {
    /// The rejection code.
    pub closed spec fn spec_code(&self) -> u32 {
        self.code
    }

    /// The rejection message.
    pub closed spec fn spec_message(&self) -> Seq<char> {
        self.message@
    }

    /// Wraps one rejection.
    pub fn new(code: u32, message: String) -> (r: CallError)
        ensures
            r.spec_code() == code,
            r.spec_message() == message@,
    {
        CallError { code, message }
    }

    /// The rejection code.
    pub fn code(&self) -> (r: u32)
        ensures
            r == self.spec_code(),
    {
        self.code
    }

    /// A readable rendering of the error.
    pub fn describe(&self) -> (r: String)
        ensures
            r@ == "Call error (code: "@ + spec_digits(self.spec_code() as nat) + "): "@
                + self.spec_message(),
    {
        let mut r = "Call error (code: ".to_owned();
        let c = dec_u64(self.code as u64);
        r.append(c.as_str());
        r.append("): ");
        r.append(self.message.as_str());
        r
    }
}

/// Some entry of `s` carries the key `k`.
pub open spec fn wallet_has_key(s: Seq<(String, String)>, k: Seq<char>) -> bool {
    exists|i: int| 0 <= i < s.len() && s[i].0@ == k
}

/// The index of the entry of `s` carrying the key `k`.
pub open spec fn wallet_idx_of(s: Seq<(String, String)>, k: Seq<char>) -> int {
    choose|i: int| 0 <= i < s.len() && s[i].0@ == k
}

/// The status stored for the key `k`.
pub open spec fn wallet_val_at(s: Seq<(String, String)>, k: Seq<char>) -> Seq<char> {
    s[wallet_idx_of(s, k)].1@
}

/// No two entries of `s` carry the same key.
pub open spec fn wallet_keys_unique(s: Seq<(String, String)>) -> bool {
    forall|i: int, j: int|
        0 <= i < j < s.len() ==> (#[trigger] s[i]).0@ != (#[trigger] s[j]).0@
}

/// With unique keys, the entry at any index carrying `k` determines
/// the stored status.
proof fn lemma_wallet_val_at(s: Seq<(String, String)>, k: Seq<char>, i: int)
    requires
        wallet_keys_unique(s),
        0 <= i < s.len(),
        s[i].0@ == k,
    ensures
        wallet_has_key(s, k),
        wallet_idx_of(s, k) == i,
        wallet_val_at(s, k) == s[i].1@,
{
    assert(wallet_has_key(s, k));
    let j = wallet_idx_of(s, k);
    assert(0 <= j < s.len() && s[j].0@ == k);
}

/// The verification statuses recorded per wallet.
pub struct WalletStore {
    entries: Vec<(String, String)>,
}

impl WalletStore {
    /// Internal consistency: wallet identifiers are unique.
    pub closed spec fn wf(&self) -> bool {
        wallet_keys_unique(self.entries@)
    }

    /// The mapping from wallet identifier to recorded status.
    pub closed spec fn view(&self) -> Map<Seq<char>, Seq<char>> {
        Map::new(
            |k: Seq<char>| wallet_has_key(self.entries@, k),
            |k: Seq<char>| wallet_val_at(self.entries@, k),
        )
    }

    /// An empty store.
    pub fn new() -> (r: WalletStore)
        ensures
            r.wf(),
            r@ == Map::<Seq<char>, Seq<char>>::empty(),
    {
        let r = WalletStore { entries: Vec::new() };
        proof {
            assert(r@ =~= Map::<Seq<char>, Seq<char>>::empty());
        }
        r
    }

    /// Records `status` for `wallet`, replacing any earlier status.
    fn record(&mut self, wallet: &str, status: &str)
        requires
            old(self).wf(),
        ensures
            final(self).wf(),
            final(self)@ == old(self)@.insert(wallet@, status@),
    {
        let ghost s_old = self.entries@;
        let owned = wallet.to_owned();
        let stat = status.to_owned();
        let n = self.entries.len();
        let mut i: usize = 0;
        while i < n
            invariant
                self.wf(),
                self.entries@ == s_old,
                s_old == old(self).entries@,
                n == s_old.len(),
                i <= n,
                owned@ == wallet@,
                stat@ == status@,
                forall|j: int| 0 <= j < i ==> (#[trigger] s_old[j]).0@ != wallet@,
            decreases n - i,
        {
            if self.entries[i].0 == owned {
                self.entries.set(i, (owned, stat));
                proof {
                    let s_new = self.entries@;
                    assert forall|k2: Seq<char>| wallet_has_key(s_new, k2) implies wallet_has_key(
                        s_old,
                        k2,
                    ) by {
                        let j = choose|j: int| 0 <= j < s_new.len() && s_new[j].0@ == k2;
                        assert(s_old[j].0@ == k2);
                    }
                    assert forall|k2: Seq<char>| wallet_has_key(s_old, k2) implies wallet_has_key(
                        s_new,
                        k2,
                    ) by {
                        let j = choose|j: int| 0 <= j < s_old.len() && s_old[j].0@ == k2;
                        assert(s_new[j].0@ == k2);
                    }
                    assert(wallet_keys_unique(s_new)) by {
                        assert forall|a: int, b: int| 0 <= a < b < s_new.len() implies (
                        #[trigger] s_new[a]).0@ != (#[trigger] s_new[b]).0@ by {
                            assert(s_old[a].0@ != s_old[b].0@);
                        }
                    }
                    assert forall|k2: Seq<char>| wallet_has_key(s_new, k2) && k2 != wallet@ implies
                        wallet_val_at(s_new, k2) == wallet_val_at(s_old, k2) by {
                        let j = choose|j: int| 0 <= j < s_new.len() && s_new[j].0@ == k2;
                        assert(j != i as int);
                        lemma_wallet_val_at(s_new, k2, j);
                        lemma_wallet_val_at(s_old, k2, j);
                    }
                    lemma_wallet_val_at(self.entries@, wallet@, i as int);
                    assert(self@ =~= old(self)@.insert(wallet@, status@));
                }
                return ;
            }
            i = i + 1;
        }
        proof {
            assert(!wallet_has_key(s_old, wallet@));
        }
        self.entries.push((owned, stat));
        proof {
            let s_new = self.entries@;
            assert(s_new[s_old.len() as int].0@ == wallet@);
            assert(wallet_keys_unique(s_new)) by {
                assert forall|a: int, b: int| 0 <= a < b < s_new.len() implies (
                #[trigger] s_new[a]).0@ != (#[trigger] s_new[b]).0@ by {
                    if b < s_old.len() {
                        assert(s_old[a].0@ != s_old[b].0@);
                    } else {
                        assert(s_old[a].0@ != wallet@);
                    }
                }
            }
            assert forall|k2: Seq<char>| wallet_has_key(s_new, k2) && k2 != wallet@ implies
                wallet_has_key(s_old, k2) && wallet_val_at(s_new, k2) == wallet_val_at(
                s_old,
                k2,
            ) by {
                let j = choose|j: int| 0 <= j < s_new.len() && s_new[j].0@ == k2;
                assert(j != s_old.len() as int);
                assert(s_old[j].0@ == k2);
                lemma_wallet_val_at(s_new, k2, j);
                lemma_wallet_val_at(s_old, k2, j);
            }
            assert forall|k2: Seq<char>| wallet_has_key(s_old, k2) implies wallet_has_key(
                s_new,
                k2,
            ) by {
                let j = choose|j: int| 0 <= j < s_old.len() && s_old[j].0@ == k2;
                assert(s_new[j].0@ == k2);
            }
            lemma_wallet_val_at(s_new, wallet@, s_old.len() as int);
            assert(self@ =~= old(self)@.insert(wallet@, status@));
        }
    }

    /// Reads the outcome of one verification call: on success the
    /// wallet is recorded as verified; on rejection the error is
    /// wrapped and handed back, and nothing is recorded. The call
    /// itself is the host boundary's work; this holds of every
    /// outcome.
    pub fn verify_user(&mut self, wallet: &str, outcome: Result<(), (u32, String)>) -> (r: Result<
        (),
        CallError,
    >)
        requires
            old(self).wf(),
        ensures
            final(self).wf(),
            outcome is Ok ==> r is Ok && final(self)@ == old(self)@.insert(
                wallet@,
                "Verified"@,
            ),
            outcome is Err ==> {
                &&& r is Err
                &&& r->Err_0.spec_code() == outcome->Err_0.0
                &&& r->Err_0.spec_message() == outcome->Err_0.1@
                &&& final(self)@ == old(self)@
            },
    {
        match outcome {
            Ok(()) => {
                self.record(wallet, "Verified");
                Ok(())
            },
            Err((code, message)) => Err(CallError::new(code, message)),
        }
    }

    /// Describes what is recorded for one wallet.
    pub fn get_wallet_info(&self, wallet: &str) -> (r: String)
        requires
            self.wf(),
        ensures
            self@.contains_key(wallet@) ==> r@ == "Wallet information for "@ + wallet@ + ": "@
                + self@[wallet@],
            !self@.contains_key(wallet@) ==> r@ == "No information found for wallet: "@ + wallet@,
    {
        let owned = wallet.to_owned();
        let n = self.entries.len();
        let mut i: usize = 0;
        while i < n
            invariant
                self.wf(),
                n == self.entries@.len(),
                i <= n,
                owned@ == wallet@,
                forall|j: int| 0 <= j < i ==> (#[trigger] self.entries@[j]).0@ != wallet@,
            decreases n - i,
        {
            if self.entries[i].0 == owned {
                proof {
                    lemma_wallet_val_at(self.entries@, wallet@, i as int);
                }
                let mut r = "Wallet information for ".to_owned();
                r.append(wallet);
                r.append(": ");
                r.append(self.entries[i].1.as_str());
                return r;
            }
            i = i + 1;
        }
        proof {
            assert(!wallet_has_key(self.entries@, wallet@));
        }
        let mut r = "No information found for wallet: ".to_owned();
        r.append(wallet);
        r
    }
}

} // verus!
