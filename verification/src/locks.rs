//! The token-exchange locks: one lock for each account, the same one every
//! time the account is named.

use vstd::prelude::*;
use std::sync::Arc;
use std::sync::Mutex;
use crate::text::str_eq;

verus! {

#[verifier::external_type_specification]
#[verifier::external_body]
#[verifier::reject_recursive_types(T)]
pub struct ExMutex<T: ?Sized>(Mutex<T>);

/// `Mutex::new`: a new lock that guards nothing.
#[verifier::external_body]
fn new_mutex() -> Mutex<()> {
    Mutex::new(())
}

/// `Arc::clone`: one more handle to the same lock.
#[verifier::external_body]
fn share_lock(lock: &Arc<Mutex<()>>) -> (out: Arc<Mutex<()>>)
    ensures
        out == *lock,
{
    Arc::clone(lock)
}

/// The locks of the accounts that have been named so far.
pub struct TokenExchangeLocks {
    ids: Vec<String>,
    locks: Vec<Arc<Mutex<()>>>,
}

/// The position below `n` at which `id` stands in `ids`, or -1.
pub open spec fn slot_in(ids: Seq<Seq<char>>, id: Seq<char>, n: int) -> int
    decreases n,
{
    if n <= 0 {
        -1
    } else if ids[n - 1] == id {
        n - 1
    } else {
        slot_in(ids, id, n - 1)
    }
}

proof fn lemma_slot_in(ids: Seq<Seq<char>>, id: Seq<char>, n: int)
    requires
        0 <= n <= ids.len(),
    ensures
        -1 <= slot_in(ids, id, n) < n,
        slot_in(ids, id, n) >= 0 ==> ids[slot_in(ids, id, n)] == id,
        slot_in(ids, id, n) == -1 ==> forall|k: int| 0 <= k < n ==> ids[k] != id,
    decreases n,
{
    if n > 0 && ids[n - 1] != id {
        lemma_slot_in(ids, id, n - 1);
    }
}

proof fn lemma_slot_in_unique(ids: Seq<Seq<char>>, id: Seq<char>, k: int, n: int)
    requires
        0 <= k < n <= ids.len(),
        ids[k] == id,
        forall|i: int, j: int| 0 <= i < j < ids.len() ==> ids[i] != ids[j],
    ensures
        slot_in(ids, id, n) == k,
    decreases n,
{
    if n - 1 != k {
        lemma_slot_in_unique(ids, id, k, n - 1);
    }
}

impl TokenExchangeLocks {
    #[verifier::type_invariant]
    pub closed spec fn wf(&self) -> bool {
        &&& self.ids@.len() == self.locks@.len()
        &&& forall|i: int, j: int|
            0 <= i < j < self.ids@.len() ==> (#[trigger] self.ids@[i])@ != (#[trigger] self.ids@[j])@
    }

    /// The accounts that have a lock, in the order in which they got it.
    pub closed spec fn accounts(&self) -> Seq<Seq<char>> {
        self.ids@.map_values(|id: String| id@)
    }

    /// The lock in a slot.
    pub closed spec fn lock_at(&self, slot: int) -> Arc<Mutex<()>> {
        self.locks@[slot]
    }

    /// The slot of an account: the position of its lock, if it has one.
    pub open spec fn slot_of(&self, id: Seq<char>) -> Option<int> {
        let k = slot_in(self.accounts(), id, self.accounts().len() as int);
        if k >= 0 {
            Some(k)
        } else {
            None
        }
    }

    /// No account has a lock yet.
    pub fn new() -> (out: Self)
        ensures
            out.accounts().len() == 0,
    {
        TokenExchangeLocks { ids: Vec::new(), locks: Vec::new() }
    }

    fn find_slot(&self, account_id: &str) -> (out: Option<usize>)
        ensures
            match out {
                Some(k) => self.slot_of(account_id@) == Some(k as int) && k < self.ids@.len(),
                None => self.slot_of(account_id@) is None,
            },
    {
        proof {
            use_type_invariant(self);
        }
        let mut i: usize = 0;
        while i < self.ids.len()
            invariant
                self.wf(),
                i <= self.ids@.len(),
                forall|k: int| 0 <= k < i ==> self.accounts()[k] != account_id@,
            decreases self.ids@.len() - i,
        {
            if str_eq(self.ids[i].as_str(), account_id) {
                proof {
                    assert(self.accounts()[i as int] == account_id@);
                    assert forall|a: int, b: int| 0 <= a < b < self.accounts().len() implies self.accounts()[a]
                        != self.accounts()[b] by {
                        assert(self.ids@[a]@ != self.ids@[b]@);
                    }
                    lemma_slot_in_unique(
                        self.accounts(),
                        account_id@,
                        i as int,
                        self.accounts().len() as int,
                    );
                }
                return Some(i);
            }
            i += 1;
        }
        proof {
            lemma_slot_in(self.accounts(), account_id@, self.accounts().len() as int);
        }
        None
    }

    /// The slot of an account, which it gets on its first mention: the next
    /// free one, with a new lock in it. Nothing else changes: every other
    /// account keeps its slot, and every slot keeps its lock.
    pub fn exchange_lock_slot(&mut self, account_id: &str) -> (out: usize)
        ensures
            final(self).slot_of(account_id@) == Some(out as int),
            match old(self).slot_of(account_id@) {
                Some(k) => out == k && final(self).accounts() == old(self).accounts(),
                None => out == old(self).accounts().len() && final(self).accounts() == old(
                    self,
                ).accounts().push(account_id@),
            },
            forall|other: Seq<char>|
                other != account_id@ ==> final(self).slot_of(other) == old(self).slot_of(other),
            forall|slot: int|
                0 <= slot < old(self).accounts().len() ==> final(self).lock_at(slot) == old(
                    self,
                ).lock_at(slot),
    {
        proof {
            use_type_invariant(&*self);
        }
        match self.find_slot(account_id) {
            Some(k) => k,
            None => {
                let ghost before = self.accounts();
                let slot = self.ids.len();
                let mut ids = copy_ids(&self.ids);
                let mut locks = copy_locks(&self.locks);
                ids.push(account_id.to_string());
                locks.push(Arc::new(new_mutex()));
                proof {
                    lemma_slot_in(before, account_id@, before.len() as int);
                    let after = ids@.map_values(|id: String| id@);
                    assert(after =~= before.push(account_id@));
                    assert forall|other: Seq<char>| other != account_id@ implies slot_in(
                        after,
                        other,
                        after.len() as int,
                    ) == slot_in(before, other, before.len() as int) by {
                        lemma_slot_in_prefix(before, after, other, before.len() as int);
                    }
                    assert forall|i: int, j: int| 0 <= i < j < ids@.len() implies (
                    #[trigger] ids@[i])@ != (#[trigger] ids@[j])@ by {
                        assert(after[i] == ids@[i]@ && after[j] == ids@[j]@);
                        if j < before.len() {
                            assert(self.ids@[i]@ != self.ids@[j]@);
                        } else {
                            assert(before[i] != account_id@);
                        }
                    }
                }
                *self = TokenExchangeLocks { ids, locks };
                slot
            },
        }
    }

    /// The token-exchange lock of an account: a handle to the lock in the
    /// account's slot, which the account gets on its first mention.
    pub fn account_token_exchange_lock(&mut self, account_id: &str) -> (out: Arc<Mutex<()>>)
        ensures
            final(self).slot_of(account_id@) is Some,
            out == final(self).lock_at(final(self).slot_of(account_id@)->0),
            match old(self).slot_of(account_id@) {
                Some(k) => final(self).slot_of(account_id@) == Some(k) && final(self).accounts()
                    == old(self).accounts(),
                None => final(self).slot_of(account_id@) == Some(
                    old(self).accounts().len() as int,
                ) && final(self).accounts() == old(self).accounts().push(account_id@),
            },
            forall|other: Seq<char>|
                other != account_id@ ==> final(self).slot_of(other) == old(self).slot_of(other),
            forall|slot: int|
                0 <= slot < old(self).accounts().len() ==> final(self).lock_at(slot) == old(
                    self,
                ).lock_at(slot),
    {
        let slot = self.exchange_lock_slot(account_id);
        proof {
            use_type_invariant(&*self);
            lemma_slot_in(self.accounts(), account_id@, self.accounts().len() as int);
        }
        share_lock(&self.locks[slot])
    }

    /// Forgets all locks.
    pub fn clear(&mut self)
        ensures
            final(self).accounts().len() == 0,
    {
        *self = TokenExchangeLocks::new();
    }
}

proof fn lemma_slot_in_prefix(before: Seq<Seq<char>>, after: Seq<Seq<char>>, id: Seq<char>, n: int)
    requires
        0 <= n <= before.len(),
        after.len() == before.len() + 1,
        forall|i: int| 0 <= i < before.len() ==> after[i] == before[i],
        after[before.len() as int] != id,
    ensures
        slot_in(after, id, n) == slot_in(before, id, n),
        n == before.len() ==> slot_in(after, id, after.len() as int) == slot_in(before, id, n),
    decreases n,
{
    if n > 0 {
        lemma_slot_in_prefix(before, after, id, n - 1);
    }
    if n == before.len() {
        assert(slot_in(after, id, after.len() as int) == slot_in(after, id, after.len() - 1));
    }
}

fn copy_ids(ids: &Vec<String>) -> (out: Vec<String>)
    ensures
        out@ == ids@,
{
    let mut out: Vec<String> = Vec::new();
    let mut i: usize = 0;
    while i < ids.len()
        invariant
            i <= ids.len(),
            out@ == ids@.subrange(0, i as int),
        decreases ids.len() - i,
    {
        out.push(ids[i].clone());
        assert(out@ == ids@.subrange(0, i + 1));
        i += 1;
    }
    assert(out@ == ids@);
    out
}

fn copy_locks(locks: &Vec<Arc<Mutex<()>>>) -> (out: Vec<Arc<Mutex<()>>>)
    ensures
        out@ == locks@,
{
    let mut out: Vec<Arc<Mutex<()>>> = Vec::new();
    let mut i: usize = 0;
    while i < locks.len()
        invariant
            i <= locks.len(),
            out@ == locks@.subrange(0, i as int),
        decreases locks.len() - i,
    {
        out.push(share_lock(&locks[i]));
        assert(out@ == locks@.subrange(0, i + 1));
        i += 1;
    }
    assert(out@ == locks@);
    out
}

/// Two accounts that share a slot are one account: every account has a lock
/// of its own.
pub proof fn lemma_slot_identifies_account(locks: TokenExchangeLocks, a: Seq<char>, b: Seq<char>)
    requires
        locks.slot_of(a) is Some,
        locks.slot_of(a) == locks.slot_of(b),
    ensures
        a == b,
{
    lemma_slot_in(locks.accounts(), a, locks.accounts().len() as int);
    lemma_slot_in(locks.accounts(), b, locks.accounts().len() as int);
}

} // verus!
