//! The balance store: a mapping from (owner, token id) to an amount.
//!
//! The store validates nothing. Every key reads as zero until it is written,
//! and a write replaces whatever the key held.

use vstd::prelude::*;
use crate::account::AccountId;

verus! {

/// Identifies a token class.
pub type TokenId = u64;

/// An amount of one token class.
pub type Balance = u128;

/// A key of the store: an owner and a token class.
pub type Holder = (AccountId, TokenId);

/// One stored record: what `owner` holds of `token_id`.
#[derive(Clone, Copy, Debug)]
struct Holding {
    owner: AccountId,
    token_id: TokenId,
    balance: Balance,
}

/// Whether record `i` of `records` is the record of `key`.
spec fn record_of(records: Seq<Holding>, i: int, key: Holder) -> bool {
    &&& 0 <= i < records.len()
    &&& records[i].owner == key.0
    &&& records[i].token_id == key.1
}

/// Whether two records are of the same key.
spec fn same_key(a: Holding, b: Holding) -> bool {
    a.owner == b.owner && a.token_id == b.token_id
}

/// No key has two records.
spec fn keys_unique(records: Seq<Holding>) -> bool {
    forall|i: int, j: int|
        0 <= i < j < records.len() ==> !#[trigger] same_key(records[i], records[j])
}

/// The amount recorded for `key`, zero where it has no record.
spec fn recorded(records: Seq<Holding>, key: Holder) -> Balance {
    if exists|i: int| record_of(records, i, key) {
        records[choose|i: int| record_of(records, i, key)].balance
    } else {
        0
    }
}

/// Balances by owner and token class.
pub struct BalanceStore {
    records: Vec<Holding>,
}

impl View for BalanceStore {
    type V = Map<Holder, Balance>;

    /// The store as a total map: every key is present, unwritten keys map to zero.
    closed spec fn view(&self) -> Map<Holder, Balance> {
        Map::total(|key: Holder| recorded(self.records@, key))
    }
}

impl BalanceStore {
    #[verifier::type_invariant]
    spec fn well_formed(self) -> bool {
        keys_unique(self.records@)
    }

    /// Every key of the store is defined.
    pub proof fn lemma_total(&self)
        ensures
            forall|key: Holder| self@.dom().contains(key),
    {
    }

    /// An empty store: every balance is zero.
    pub fn new() -> (store: BalanceStore)
        ensures
            store@ == Map::<Holder, Balance>::total(|key: Holder| 0u128),
    {
        let store = BalanceStore { records: Vec::new() };
        store
    }

    /// The balance of `owner` in `token_id`, zero if none was ever written.
    pub fn get(&self, owner: AccountId, token_id: TokenId) -> (balance: Balance)
        ensures
            balance == self@[(owner, token_id)],
    {
        proof {
            use_type_invariant(self);
        }
        let mut i: usize = 0;
        while i < self.records.len()
            invariant
                0 <= i <= self.records.len(),
                keys_unique(self.records@),
                forall|j: int| 0 <= j < i ==> !record_of(self.records@, j, (owner, token_id)),
            decreases self.records.len() - i,
        {
            if self.records[i].owner == owner && self.records[i].token_id == token_id {
                proof {
                    lemma_recorded_at(self.records@, i as int, (owner, token_id));
                }
                return self.records[i].balance;
            }
            i += 1;
        }
        0
    }

    /// Writes `balance` for `owner` and `token_id`, replacing what was there.
    pub fn set(&mut self, owner: AccountId, token_id: TokenId, balance: Balance)
        ensures
            final(self)@ == old(self)@.insert((owner, token_id), balance),
    {
        proof {
            use_type_invariant(&*self);
        }
        let ghost key = (owner, token_id);
        let ghost before = self.records@;
        let mut records: Vec<Holding> = Vec::new();
        std::mem::swap(&mut records, &mut self.records);
        let mut i: usize = 0;
        let mut found = false;
        while i < records.len() && !found
            invariant
                0 <= i <= records.len(),
                records@ == before,
                key == (owner, token_id),
                forall|j: int| 0 <= j < i ==> !record_of(before, j, key),
                found ==> record_of(before, i as int, key),
            decreases records.len() - i, if found { 0int } else { 1int },
        {
            if records[i].owner == owner && records[i].token_id == token_id {
                found = true;
            } else {
                i += 1;
            }
        }
        if found {
            records.set(i, Holding { owner, token_id, balance });
        } else {
            records.push(Holding { owner, token_id, balance });
        }
        proof {
            let after = records@;
            assert forall|other: Holder, j: int| other != key implies record_of(after, j, other)
                == record_of(before, j, other) by {}
            assert forall|a: int, b: int| 0 <= a < b < after.len() implies !#[trigger] same_key(
                after[a],
                after[b],
            ) by {
                if found {
                    assert(same_key(after[a], after[b]) == same_key(before[a], before[b]));
                } else if b == before.len() {
                    assert(!record_of(before, a, key));
                }
            }
            lemma_recorded_at(after, i as int, key);
            assert forall|other: Holder| other != key implies recorded(after, other) == recorded(
                before,
                other,
            ) by {
                if exists|j: int| record_of(before, j, other) {
                    let b = choose|j: int| record_of(before, j, other);
                    lemma_recorded_at(after, b, other);
                }
            }
        }
        self.records = records;
    }
}

impl Clone for BalanceStore {
    /// An independent copy holding the same balances.
    fn clone(&self) -> (copy: BalanceStore)
        ensures
            copy@ == self@,
    {
        proof {
            use_type_invariant(self);
        }
        let mut records: Vec<Holding> = Vec::new();
        let mut i: usize = 0;
        while i < self.records.len()
            invariant
                0 <= i <= self.records.len(),
                records@ == self.records@.take(i as int),
            decreases self.records.len() - i,
        {
            records.push(self.records[i]);
            i += 1;
        }
        assert(records@ =~= self.records@);
        BalanceStore { records }
    }
}

/// With unique keys, the amount recorded for a key is the one in its record.
proof fn lemma_recorded_at(records: Seq<Holding>, i: int, key: Holder)
    requires
        keys_unique(records),
        record_of(records, i, key),
    ensures
        recorded(records, key) == records[i].balance,
{
    let c = choose|j: int| record_of(records, j, key);
    if c < i {
        assert(same_key(records[c], records[i]));
    } else if i < c {
        assert(same_key(records[i], records[c]));
    }
}

} // verus!
