//! What a batch of (token id, value) pairs does to the balances.
//!
//! The pairs of a batch are applied in order: each takes its value from the
//! sender and hands it to the recipient. A sender that names itself as the
//! recipient gets every value straight back.

use vstd::prelude::*;
use crate::account::AccountId;
use crate::store::{Balance, Holder, TokenId};

verus! {

/// How much of `token_id` the first `n` pairs name.
pub open spec fn moved_upto(ids: Seq<TokenId>, values: Seq<Balance>, n: nat, token_id: TokenId) -> nat
    decreases n,
{
    if n == 0 {
        0
    } else {
        let rest = moved_upto(ids, values, (n - 1) as nat, token_id);
        if ids[n - 1] == token_id {
            rest + values[n - 1] as nat
        } else {
            rest
        }
    }
}

/// How much of `token_id` the whole batch names.
pub open spec fn moved(ids: Seq<TokenId>, values: Seq<Balance>, token_id: TokenId) -> nat {
    moved_upto(ids, values, ids.len(), token_id)
}

/// What the sender holds of the token of pair `i` when that pair's turn comes.
pub open spec fn sender_holds(
    balances: Map<Holder, Balance>,
    from: AccountId,
    to: AccountId,
    ids: Seq<TokenId>,
    values: Seq<Balance>,
    i: int,
) -> int {
    if from == to {
        balances[(from, ids[i])] as int
    } else {
        balances[(from, ids[i])] - moved_upto(ids, values, i as nat, ids[i])
    }
}

/// What the recipient holds of the token of pair `i` once that pair is applied.
pub open spec fn recipient_reaches(
    balances: Map<Holder, Balance>,
    from: AccountId,
    to: AccountId,
    ids: Seq<TokenId>,
    values: Seq<Balance>,
    i: int,
) -> int {
    if from == to {
        balances[(to, ids[i])] as int
    } else {
        balances[(to, ids[i])] + moved_upto(ids, values, (i + 1) as nat, ids[i])
    }
}

/// Every pair, in its turn, finds its value in the sender's balance.
pub open spec fn covered(
    balances: Map<Holder, Balance>,
    from: AccountId,
    to: AccountId,
    ids: Seq<TokenId>,
    values: Seq<Balance>,
) -> bool {
    forall|i: int|
        0 <= i < ids.len() ==> values[i] <= #[trigger] sender_holds(
            balances,
            from,
            to,
            ids,
            values,
            i,
        )
}

/// No pair lifts the recipient's balance out of the range of a balance.
pub open spec fn fits(
    balances: Map<Holder, Balance>,
    from: AccountId,
    to: AccountId,
    ids: Seq<TokenId>,
    values: Seq<Balance>,
) -> bool {
    forall|i: int|
        0 <= i < ids.len() ==> #[trigger] recipient_reaches(balances, from, to, ids, values, i)
            <= Balance::MAX
}

/// The balances after the whole batch: the sender has given, and the
/// recipient has got, what the batch names of each token; nothing else moved.
pub open spec fn after_batch(
    balances: Map<Holder, Balance>,
    from: AccountId,
    to: AccountId,
    ids: Seq<TokenId>,
    values: Seq<Balance>,
) -> Map<Holder, Balance> {
    if from == to {
        balances
    } else {
        Map::total(
            |key: Holder|
                if key.0 == from {
                    (balances[key] - moved(ids, values, key.1)) as Balance
                } else if key.0 == to {
                    (balances[key] + moved(ids, values, key.1)) as Balance
                } else {
                    balances[key]
                },
        )
    }
}

/// The balances once the first `n` pairs have been taken from the sender and
/// none has yet been handed to the recipient.
pub open spec fn debited(
    balances: Map<Holder, Balance>,
    from: AccountId,
    to: AccountId,
    ids: Seq<TokenId>,
    values: Seq<Balance>,
    n: nat,
) -> Map<Holder, Balance> {
    if from == to {
        balances
    } else {
        Map::total(
            |key: Holder|
                if key.0 == from {
                    (balances[key] - moved_upto(ids, values, n, key.1)) as Balance
                } else {
                    balances[key]
                },
        )
    }
}

/// The balances once all pairs have been taken from the sender and the first
/// `n` have been handed to the recipient.
pub open spec fn credited(
    balances: Map<Holder, Balance>,
    from: AccountId,
    to: AccountId,
    ids: Seq<TokenId>,
    values: Seq<Balance>,
    n: nat,
) -> Map<Holder, Balance> {
    if from == to {
        balances
    } else {
        Map::total(
            |key: Holder|
                if key.0 == from {
                    (balances[key] - moved(ids, values, key.1)) as Balance
                } else if key.0 == to {
                    (balances[key] + moved_upto(ids, values, n, key.1)) as Balance
                } else {
                    balances[key]
                },
        )
    }
}

} // verus!
