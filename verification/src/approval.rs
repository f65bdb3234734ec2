//! The approval registry: which operators may move which owners' funds.
//!
//! An owner grants an operator authority over all its balances, and takes it
//! back. Nobody is approved until an owner says so.

use vstd::prelude::*;
use crate::account::AccountId;

verus! {

/// A grant: an owner and the operator it approved.
pub type Grant = (AccountId, AccountId);

/// The grants in force.
pub struct ApprovalRegistry {
    grants: Vec<Grant>,
}

impl View for ApprovalRegistry {
    type V = Set<Grant>;

    /// The registry as the set of its grants.
    closed spec fn view(&self) -> Set<Grant> {
        Set::new(|grant: Grant| self.grants@.contains(grant))
    }
}

impl ApprovalRegistry {
    /// A registry without grants.
    pub fn new() -> (registry: ApprovalRegistry)
        ensures
            registry@ == Set::<Grant>::empty(),
    {
        let registry = ApprovalRegistry { grants: Vec::new() };
        assert(registry@ =~= Set::<Grant>::empty());
        registry
    }

    /// Whether `owner` has approved `operator`.
    pub fn contains(&self, owner: AccountId, operator: AccountId) -> (granted: bool)
        ensures
            granted == self@.contains((owner, operator)),
    {
        let mut i: usize = 0;
        while i < self.grants.len()
            invariant
                0 <= i <= self.grants.len(),
                forall|j: int| 0 <= j < i ==> self.grants@[j] != (owner, operator),
            decreases self.grants.len() - i,
        {
            if self.grants[i].0 == owner && self.grants[i].1 == operator {
                assert(self.grants@[i as int] == (owner, operator));
                return true;
            }
            i += 1;
        }
        false
    }

    /// Puts the grant of `owner` to `operator` in force, or ends it.
    pub fn set(&mut self, owner: AccountId, operator: AccountId, approved: bool)
        ensures
            final(self)@ == (if approved {
                old(self)@.insert((owner, operator))
            } else {
                old(self)@.remove((owner, operator))
            }),
    {
        let ghost grant = (owner, operator);
        let ghost before = self.grants@;
        let mut kept: Vec<Grant> = Vec::new();
        let mut i: usize = 0;
        while i < self.grants.len()
            invariant
                0 <= i <= self.grants.len(),
                self.grants@ == before,
                grant == (owner, operator),
                forall|other: Grant|
                    kept@.contains(other) <==> other != grant && before.take(i as int).contains(
                        other,
                    ),
            decreases self.grants.len() - i,
        {
            let ghost earlier = kept@;
            let current = self.grants[i];
            if !(current.0 == owner && current.1 == operator) {
                kept.push(current);
            }
            proof {
                assert forall|other: Grant|
                    kept@.contains(other) <==> other != grant && before.take(i + 1).contains(
                        other,
                    ) by {
                    lemma_contains_push(before.take(i as int), before[i as int], other);
                    assert(before.take(i + 1) =~= before.take(i as int).push(before[i as int]));
                    if current != grant {
                        lemma_contains_push(earlier, current, other);
                    }
                }
            }
            i += 1;
        }
        let ghost filtered = kept@;
        if approved {
            kept.push((owner, operator));
        }
        proof {
            assert(before.take(i as int) =~= before);
            assert forall|other: Grant| #[trigger]
                kept@.contains(other) <==> (other != grant && before.contains(other)) || (approved
                    && other == grant) by {
                if approved {
                    lemma_contains_push(filtered, grant, other);
                }
            }
        }
        self.grants = kept;
        proof {
            let after = if approved {
                old(self)@.insert(grant)
            } else {
                old(self)@.remove(grant)
            };
            assert forall|other: Grant| self@.contains(other) <==> after.contains(other) by {
                assert(self@.contains(other) <==> self.grants@.contains(other));
                assert(old(self)@.contains(other) <==> before.contains(other));
            }
            assert(self@ =~= after);
        }
    }
}

impl Clone for ApprovalRegistry {
    /// An independent copy holding the same grants.
    fn clone(&self) -> (copy: ApprovalRegistry)
        ensures
            copy@ == self@,
    {
        let mut grants: Vec<Grant> = Vec::new();
        let mut i: usize = 0;
        while i < self.grants.len()
            invariant
                0 <= i <= self.grants.len(),
                grants@ == self.grants@.take(i as int),
            decreases self.grants.len() - i,
        {
            grants.push(self.grants[i]);
            assert(grants@ =~= self.grants@.take(i + 1));
            i += 1;
        }
        assert(grants@ =~= self.grants@);
        ApprovalRegistry { grants }
    }
}

/// A sequence with one more element holds what it held, and that element.
proof fn lemma_contains_push(grants: Seq<Grant>, last: Grant, other: Grant)
    ensures
        grants.push(last).contains(other) <==> grants.contains(other) || other == last,
{
    let longer = grants.push(last);
    if grants.contains(other) {
        let i = choose|i: int| 0 <= i < grants.len() && grants[i] == other;
        assert(longer[i] == other);
    }
    if other == last {
        assert(longer[grants.len() as int] == other);
    }
    if longer.contains(other) {
        let i = choose|i: int| 0 <= i < longer.len() && longer[i] == other;
        if i < grants.len() {
            assert(grants[i] == other);
        }
    }
}

} // verus!
