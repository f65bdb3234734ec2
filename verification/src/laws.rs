//! What holds of the ledger whatever it is asked to do.

use vstd::prelude::*;
use crate::acceptance::{acceptance_verdict, accepting_answer, ProbeOutcome};
use crate::account::AccountId;
use crate::batch::{covered, fits, moved, moved_upto, recipient_reaches, sender_holds};
use crate::error::Error;
use crate::state::{batch_events, LedgerState};
use crate::store::{Balance, Holder, TokenId};

verus! {

/// What the accounts of a list hold of a token id, taken together.
pub open spec fn supply_among(
    balances: Map<Holder, Balance>,
    accounts: Seq<AccountId>,
    token_id: TokenId,
) -> nat
    decreases accounts.len(),
{
    if accounts.len() == 0 {
        0
    } else {
        supply_among(balances, accounts.drop_last(), token_id) + balances[(
            accounts.last(),
            token_id,
        )] as nat
    }
}

/// The ledger after the first `n` pairs of a batch were each applied as one
/// transfer, in order.
pub open spec fn applied_in_turn(
    state: LedgerState,
    caller: AccountId,
    from: AccountId,
    to: AccountId,
    ids: Seq<TokenId>,
    values: Seq<Balance>,
    n: nat,
) -> LedgerState
    decreases n,
{
    if n == 0 {
        state
    } else {
        applied_in_turn(state, caller, from, to, ids, values, (n - 1) as nat).transferred(
            caller,
            from,
            to,
            ids[n - 1],
            values[n - 1],
        )
    }
}

/// Where one account gives an amount of a token to another and nobody else
/// is touched, a list of accounts holds that much less if it names the giver
/// and that much more if it names the taker.
proof fn lemma_supply_shift(
    before: Map<Holder, Balance>,
    after: Map<Holder, Balance>,
    from: AccountId,
    to: AccountId,
    token_id: TokenId,
    amount: int,
    accounts: Seq<AccountId>,
)
    requires
        from != to,
        after[(from, token_id)] == before[(from, token_id)] - amount,
        after[(to, token_id)] == before[(to, token_id)] + amount,
        forall|other: AccountId|
            other != from && other != to ==> after[(other, token_id)] == before[(other, token_id)],
        accounts.no_duplicates(),
    ensures
        supply_among(after, accounts, token_id) == supply_among(before, accounts, token_id) - (if accounts.contains(
            from,
        ) {
            amount
        } else {
            0
        }) + (if accounts.contains(to) {
            amount
        } else {
            0
        }),
    decreases accounts.len(),
{
    if accounts.len() > 0 {
        let rest = accounts.drop_last();
        let last = accounts.last();
        assert(rest.no_duplicates());
        lemma_supply_shift(before, after, from, to, token_id, amount, rest);
        assert forall|a: AccountId| accounts.contains(a) == (rest.contains(a) || a == last) by {
            if rest.contains(a) {
                let i = choose|i: int| 0 <= i < rest.len() && rest[i] == a;
                assert(accounts[i] == a);
            }
            if a == last {
                assert(accounts[accounts.len() - 1] == a);
            }
            if accounts.contains(a) {
                let i = choose|i: int| 0 <= i < accounts.len() && accounts[i] == a;
                if i < rest.len() {
                    assert(rest[i] == a);
                }
            }
        }
        assert(!rest.contains(last)) by {
            if rest.contains(last) {
                let i = choose|i: int| 0 <= i < rest.len() && rest[i] == last;
                assert(accounts[i] == accounts[accounts.len() - 1]);
            }
        }
    }
}

/// A transfer between two accounts takes `value` from the one, gives it to
/// the other and touches no other balance; a transfer from an account to
/// itself changes no balance.
pub proof fn lemma_transfer_moves_value(
    state: LedgerState,
    caller: AccountId,
    from: AccountId,
    to: AccountId,
    token_id: TokenId,
    value: Balance,
)
    requires
        state.well_formed(),
        value <= state.balances[(from, token_id)],
        from != to ==> state.balances[(to, token_id)] + value <= Balance::MAX,
    ensures
        ({
            let after = state.transferred(caller, from, to, token_id, value).balances;
            &&& from != to ==> after[(from, token_id)] == state.balances[(from, token_id)] - value
            &&& from != to ==> after[(to, token_id)] == state.balances[(to, token_id)] + value
            &&& from == to ==> after == state.balances
            &&& forall|key: Holder|
                key != (from, token_id) && key != (to, token_id) ==> after[key]
                    == state.balances[key]
        }),
{
    let after = state.transferred(caller, from, to, token_id, value).balances;
    if from == to {
        assert(after =~= state.balances);
    }
}

/// A transfer leaves what the accounts of a list hold of any token id as it
/// was, if the list names no account twice and names both parties.
pub proof fn lemma_transfer_conserves_supply(
    state: LedgerState,
    caller: AccountId,
    from: AccountId,
    to: AccountId,
    token_id: TokenId,
    value: Balance,
    accounts: Seq<AccountId>,
    any_token: TokenId,
)
    requires
        state.well_formed(),
        value <= state.balances[(from, token_id)],
        from != to ==> state.balances[(to, token_id)] + value <= Balance::MAX,
        accounts.no_duplicates(),
        accounts.contains(from),
        accounts.contains(to),
    ensures
        supply_among(
            state.transferred(caller, from, to, token_id, value).balances,
            accounts,
            any_token,
        ) == supply_among(state.balances, accounts, any_token),
{
    let after = state.transferred(caller, from, to, token_id, value).balances;
    lemma_transfer_moves_value(state, caller, from, to, token_id, value);
    if from != to {
        if any_token == token_id {
            lemma_supply_shift(state.balances, after, from, to, any_token, value as int, accounts);
        } else {
            lemma_supply_shift(state.balances, after, from, to, any_token, 0, accounts);
        }
    }
}

/// A batch that is applied takes from the sender, of every token id, what
/// the batch names of it, gives the recipient as much, and touches no other
/// balance; from an account to itself it changes no balance.
pub proof fn lemma_batch_moves_value(
    state: LedgerState,
    caller: AccountId,
    from: AccountId,
    to: AccountId,
    ids: Seq<TokenId>,
    values: Seq<Balance>,
    outcome: ProbeOutcome,
    token_id: TokenId,
)
    requires
        state.well_formed(),
        state.batch_verdict(caller, from, to, ids, values, outcome) is Ok,
    ensures
        ({
            let after = state.after_batch_transfer(caller, from, to, ids, values, outcome).balances;
            &&& from != to ==> after[(from, token_id)] == state.balances[(from, token_id)] - moved(
                ids,
                values,
                token_id,
            )
            &&& from != to ==> after[(to, token_id)] == state.balances[(to, token_id)] + moved(
                ids,
                values,
                token_id,
            )
            &&& from == to ==> after == state.balances
            &&& forall|other: AccountId|
                other != from && other != to ==> after[(other, token_id)] == state.balances[(
                    other,
                    token_id,
                )]
        }),
{
    if from != to {
        lemma_batch_within_range(state.balances, from, to, ids, values, ids.len(), token_id);
    }
}

/// In a batch between two accounts that is covered and fits, what the first
/// `n` pairs name of a token id is within what the sender holds and within
/// the room that the recipient has.
pub proof fn lemma_batch_within_range(
    balances: Map<Holder, Balance>,
    from: AccountId,
    to: AccountId,
    ids: Seq<TokenId>,
    values: Seq<Balance>,
    n: nat,
    token_id: TokenId,
)
    requires
        from != to,
        n <= ids.len(),
        covered(balances, from, to, ids, values),
        fits(balances, from, to, ids, values),
    ensures
        moved_upto(ids, values, n, token_id) <= balances[(from, token_id)],
        balances[(to, token_id)] + moved_upto(ids, values, n, token_id) <= Balance::MAX,
    decreases n,
{
    if n > 0 {
        lemma_batch_within_range(balances, from, to, ids, values, (n - 1) as nat, token_id);
        if ids[n - 1] == token_id {
            assert(values[n - 1] <= sender_holds(balances, from, to, ids, values, n - 1));
            assert(recipient_reaches(balances, from, to, ids, values, n - 1) <= Balance::MAX);
        }
    }
}

/// A batch that is applied leaves what the accounts of a list hold of any
/// token id as it was, if the list names no account twice and names both
/// parties.
pub proof fn lemma_batch_conserves_supply(
    state: LedgerState,
    caller: AccountId,
    from: AccountId,
    to: AccountId,
    ids: Seq<TokenId>,
    values: Seq<Balance>,
    outcome: ProbeOutcome,
    accounts: Seq<AccountId>,
    token_id: TokenId,
)
    requires
        state.well_formed(),
        state.batch_verdict(caller, from, to, ids, values, outcome) is Ok,
        accounts.no_duplicates(),
        accounts.contains(from),
        accounts.contains(to),
    ensures
        supply_among(
            state.after_batch_transfer(caller, from, to, ids, values, outcome).balances,
            accounts,
            token_id,
        ) == supply_among(state.balances, accounts, token_id),
{
    lemma_batch_moves_value(state, caller, from, to, ids, values, outcome, token_id);
    if from != to {
        lemma_supply_shift(
            state.balances,
            state.after_batch_transfer(caller, from, to, ids, values, outcome).balances,
            from,
            to,
            token_id,
            moved(ids, values, token_id) as int,
            accounts,
        );
    }
}

/// A batch that can be applied is applied as its pairs say, one transfer
/// after the other: each pair finds its value with the sender and room with
/// the recipient, and the last leaves the ledger as the batch does.
pub proof fn lemma_batch_is_pairwise(
    state: LedgerState,
    caller: AccountId,
    from: AccountId,
    to: AccountId,
    ids: Seq<TokenId>,
    values: Seq<Balance>,
    n: nat,
)
    requires
        state.well_formed(),
        ids.len() == values.len(),
        n <= ids.len(),
        covered(state.balances, from, to, ids, values),
        fits(state.balances, from, to, ids, values),
    ensures
        ({
            let turn = applied_in_turn(state, caller, from, to, ids, values, n);
            &&& turn.well_formed()
            &&& turn.token_id_nonce == state.token_id_nonce
            &&& turn.approvals == state.approvals
            &&& turn.price_per_token == state.price_per_token
            &&& turn.events == state.events + batch_events(
                caller,
                from,
                to,
                ids,
                values,
            ).take(n as int)
            &&& forall|key: Holder|
                #![auto]
                turn.balances[key] == (if from == to {
                    state.balances[key] as int
                } else if key.0 == from {
                    state.balances[key] - moved_upto(ids, values, n, key.1)
                } else if key.0 == to {
                    state.balances[key] + moved_upto(ids, values, n, key.1)
                } else {
                    state.balances[key] as int
                })
            &&& n < ids.len() ==> values[n as int] <= turn.balances[(from, ids[n as int])]
            &&& n < ids.len() && from != to ==> turn.balances[(to, ids[n as int])] + values[n as int]
                <= Balance::MAX
            &&& n == ids.len() ==> turn == state.batch_applied(caller, from, to, ids, values)
        }),
    decreases n,
{
    let events = batch_events(caller, from, to, ids, values);
    let turn = applied_in_turn(state, caller, from, to, ids, values, n);
    if n == 0 {
        assert(turn.events =~= state.events + events.take(0));
    } else {
        let k = (n - 1) as nat;
        lemma_batch_is_pairwise(state, caller, from, to, ids, values, k);
        assert(turn.events =~= state.events + events.take(n as int));
        assert forall|key: Holder|
            #![auto]
            turn.balances[key] == (if from == to {
                state.balances[key] as int
            } else if key.0 == from {
                state.balances[key] - moved_upto(ids, values, n, key.1)
            } else if key.0 == to {
                state.balances[key] + moved_upto(ids, values, n, key.1)
            } else {
                state.balances[key] as int
            }) by {
            if from != to {
                lemma_batch_within_range(state.balances, from, to, ids, values, n, key.1);
            }
        }
    }
    if n < ids.len() {
        assert(values[n as int] <= sender_holds(state.balances, from, to, ids, values, n as int));
        assert(recipient_reaches(state.balances, from, to, ids, values, n as int) <= Balance::MAX);
    }
    if n == ids.len() {
        let whole = state.batch_applied(caller, from, to, ids, values);
        assert(events.take(n as int) =~= events);
        assert(turn.balances =~= whole.balances) by {
            assert forall|key: Holder| turn.balances[key] == whole.balances[key] by {
                if from != to {
                    lemma_batch_within_range(state.balances, from, to, ids, values, n, key.1);
                }
            }
        }
        assert(turn =~= whole);
    }
}

/// A batch in which some pair, in its turn, asks more of the sender than the
/// sender then holds changes nothing; if the request itself is in order, the
/// answer is `InsufficientBalance`.
pub proof fn lemma_short_batch_applies_nothing(
    state: LedgerState,
    caller: AccountId,
    from: AccountId,
    to: AccountId,
    ids: Seq<TokenId>,
    values: Seq<Balance>,
    outcome: ProbeOutcome,
    i: int,
)
    requires
        0 <= i < ids.len(),
        values[i] > sender_holds(state.balances, from, to, ids, values, i),
    ensures
        state.after_batch_transfer(caller, from, to, ids, values, outcome) == state,
        state.request_verdict(caller, from, to, ids, values) is Ok ==> state.batch_verdict(
            caller,
            from,
            to,
            ids,
            values,
            outcome,
        ) == Err::<(), Error>(Error::InsufficientBalance),
{
}

/// A batch transfer that answers with an error, whichever, changes nothing.
pub proof fn lemma_refused_batch_applies_nothing(
    state: LedgerState,
    caller: AccountId,
    from: AccountId,
    to: AccountId,
    ids: Seq<TokenId>,
    values: Seq<Balance>,
    outcome: ProbeOutcome,
)
    requires
        state.batch_verdict(caller, from, to, ids, values, outcome) is Err,
    ensures
        state.after_batch_transfer(caller, from, to, ids, values, outcome) == state,
{
}

/// A batch transfer is refused as not approved exactly where the caller is
/// not the sender and the sender has not approved it, whatever the
/// recipient, the pairs, the balances and the probe; nothing changes then.
pub proof fn lemma_unapproved_refused(
    state: LedgerState,
    caller: AccountId,
    from: AccountId,
    to: AccountId,
    ids: Seq<TokenId>,
    values: Seq<Balance>,
    outcome: ProbeOutcome,
)
    ensures
        caller != from && !state.approved_for_all(from, caller) ==> state.batch_verdict(
            caller,
            from,
            to,
            ids,
            values,
            outcome,
        ) == Err::<(), Error>(Error::NotApproved) && state.after_batch_transfer(
            caller,
            from,
            to,
            ids,
            values,
            outcome,
        ) == state,
        caller == from || state.approved_for_all(from, caller) ==> state.batch_verdict(
            caller,
            from,
            to,
            ids,
            values,
            outcome,
        ) != Err::<(), Error>(Error::NotApproved),
{
}

/// Nobody is approved on a new ledger. An owner's word decides whether its
/// operator is approved, and changes the approval of no other owner and no
/// other operator.
pub proof fn lemma_approval_follows_the_owner(
    state: LedgerState,
    caller: AccountId,
    operator: AccountId,
    approved: bool,
    owner: AccountId,
    other: AccountId,
)
    ensures
        !LedgerState::initial().approved_for_all(owner, other),
        state.approval_set(caller, operator, approved).approved_for_all(caller, operator)
            == approved,
        (owner, other) != (caller, operator) ==> state.approval_set(
            caller,
            operator,
            approved,
        ).approved_for_all(owner, other) == state.approved_for_all(owner, other),
{
}

/// Nothing but an owner's word moves the approvals: not an issuance, a
/// transfer, a batch or a sale, whether it succeeds or not.
pub proof fn lemma_approvals_kept(
    state: LedgerState,
    caller: AccountId,
    from: AccountId,
    to: AccountId,
    token_id: TokenId,
    value: Balance,
    price: Balance,
    ids: Seq<TokenId>,
    values: Seq<Balance>,
    outcome: ProbeOutcome,
    reply: ProbeOutcome,
)
    ensures
        state.created(caller, value).approvals == state.approvals,
        state.minted(caller, token_id, value).approvals == state.approvals,
        state.transferred(caller, from, to, token_id, value).approvals == state.approvals,
        state.after_batch_transfer(caller, from, to, ids, values, outcome).approvals
            == state.approvals,
        state.sale(caller, to, token_id, value, price, outcome, reply).1.approvals
            == state.approvals,
{
}

/// A batch transfer to the zero address, asked for by the sender or by an
/// operator that the sender approved, is refused as such, whatever the
/// balances, the pairs and the probe.
pub proof fn lemma_zero_address_refused(
    state: LedgerState,
    caller: AccountId,
    from: AccountId,
    to: AccountId,
    ids: Seq<TokenId>,
    values: Seq<Balance>,
    outcome: ProbeOutcome,
)
    requires
        caller == from || state.approved_for_all(from, caller),
        to.is_zero(),
    ensures
        state.batch_verdict(caller, from, to, ids, values, outcome) == Err::<(), Error>(
            Error::ZeroAddressTransfer,
        ),
        state.after_batch_transfer(caller, from, to, ids, values, outcome) == state,
{
}

/// A batch without pairs, or with ids and values that differ in number, is
/// refused as mismatched whatever the balances are, if the sender or an
/// operator that the sender approved asks for it and the recipient is not
/// the zero address.
pub proof fn lemma_mismatch_refused(
    state: LedgerState,
    caller: AccountId,
    from: AccountId,
    to: AccountId,
    ids: Seq<TokenId>,
    values: Seq<Balance>,
    outcome: ProbeOutcome,
)
    requires
        caller == from || state.approved_for_all(from, caller),
        !to.is_zero(),
        ids.len() == 0 || ids.len() != values.len(),
    ensures
        state.batch_verdict(caller, from, to, ids, values, outcome) == Err::<(), Error>(
            Error::BatchTransferMismatch,
        ),
        state.after_batch_transfer(caller, from, to, ids, values, outcome) == state,
{
}

/// A mint is refused for every token id above the nonce, and for no other.
pub proof fn lemma_mint_gating(state: LedgerState, token_id: TokenId)
    ensures
        token_id > state.token_id_nonce ==> state.mint_verdict(token_id) == Err::<(), Error>(
            Error::UnexistentToken,
        ),
        token_id <= state.token_id_nonce ==> state.mint_verdict(token_id) == Ok::<(), Error>(()),
{
}

/// The first token id is 1; every `create` issues an id above all that were
/// issued before it, and that id can be minted at once.
pub proof fn lemma_create_ids_increase(state: LedgerState, caller: AccountId, value: Balance)
    requires
        state.token_id_nonce < TokenId::MAX,
    ensures
        LedgerState::initial().next_token_id() == 1,
        state.next_token_id() > state.token_id_nonce,
        state.created(caller, value).token_id_nonce == state.next_token_id(),
        state.created(caller, value).next_token_id() > state.next_token_id(),
        state.created(caller, value).mint_verdict(state.next_token_id() as TokenId) is Ok,
{
}

/// Nothing but `create` moves the nonce: not a mint, an approval, a
/// transfer, a batch or a sale, whether it succeeds or not.
pub proof fn lemma_nonce_kept(
    state: LedgerState,
    caller: AccountId,
    from: AccountId,
    to: AccountId,
    token_id: TokenId,
    value: Balance,
    price: Balance,
    ids: Seq<TokenId>,
    values: Seq<Balance>,
    outcome: ProbeOutcome,
    reply: ProbeOutcome,
)
    ensures
        state.minted(caller, token_id, value).token_id_nonce == state.token_id_nonce,
        state.approval_set(caller, to, true).token_id_nonce == state.token_id_nonce,
        state.approval_set(caller, to, false).token_id_nonce == state.token_id_nonce,
        state.transferred(caller, from, to, token_id, value).token_id_nonce
            == state.token_id_nonce,
        state.after_batch_transfer(caller, from, to, ids, values, outcome).token_id_nonce
            == state.token_id_nonce,
        state.sale(caller, to, token_id, value, price, outcome, reply).1.token_id_nonce
            == state.token_id_nonce,
{
}

/// A recipient without code accepts whatever it is asked; a recipient that
/// answers with other bytes than the accepting ones, or whose call fails,
/// rejects.
pub proof fn lemma_acceptance(outcome: ProbeOutcome)
    ensures
        outcome.no_code() ==> acceptance_verdict(outcome) == Ok::<(), Error>(()),
        outcome matches ProbeOutcome::Returned(answer) ==> (acceptance_verdict(outcome) is Ok
            <==> answer@ == accepting_answer()),
        outcome is Malformed || outcome is Failed ==> acceptance_verdict(outcome) == Err::<
            (),
            Error,
        >(Error::TransferRejected),
{
}

/// A batch that can be applied is applied if its recipient has no code, and
/// is refused, nothing changed, if its recipient rejects.
pub proof fn lemma_batch_awaits_acceptance(
    state: LedgerState,
    caller: AccountId,
    from: AccountId,
    to: AccountId,
    ids: Seq<TokenId>,
    values: Seq<Balance>,
    outcome: ProbeOutcome,
)
    requires
        state.batch_admission(caller, from, to, ids, values) is Ok,
    ensures
        outcome.no_code() ==> state.batch_verdict(caller, from, to, ids, values, outcome) is Ok,
        !outcome.accepts() ==> state.batch_verdict(caller, from, to, ids, values, outcome) == Err::<
            (),
            Error,
        >(Error::TransferRejected),
        !outcome.accepts() ==> state.after_batch_transfer(caller, from, to, ids, values, outcome)
            == state,
{
}

/// A batch of one pair names its value of its token id and nothing of any
/// other.
pub proof fn lemma_moved_single(token_id: TokenId, value: Balance, any_token: TokenId)
    ensures
        moved(seq![token_id], seq![value], any_token) == (if any_token == token_id {
            value as nat
        } else {
            0
        }),
{
    reveal_with_fuel(moved_upto, 2);
}

/// A sale records its price whether it succeeds or not. It succeeds only
/// where the buyer has approved the seller. Where it succeeds, the seller
/// ends with what it held and the total price on top, the buyer with what
/// it held and the amount on top, and no other balance has changed.
pub proof fn lemma_sale_settles(
    state: LedgerState,
    seller: AccountId,
    buyer: AccountId,
    token_id: TokenId,
    amount: Balance,
    price_per_token: Balance,
    buyer_outcome: ProbeOutcome,
    seller_outcome: ProbeOutcome,
)
    requires
        state.well_formed(),
    ensures
        ({
            let (answer, after) = state.sale(
                seller,
                buyer,
                token_id,
                amount,
                price_per_token,
                buyer_outcome,
                seller_outcome,
            );
            &&& after.price_per_token == price_per_token
            &&& answer is Ok ==> {
                &&& buyer != seller
                &&& state.approved_for_all(buyer, seller)
                &&& amount <= state.balances[(seller, token_id)]
                &&& after.balances[(seller, token_id)] == state.balances[(seller, token_id)]
                    + price_per_token * amount
                &&& after.balances[(buyer, token_id)] == state.balances[(buyer, token_id)] + amount
                &&& forall|key: Holder|
                    key != (seller, token_id) && key != (buyer, token_id) ==> after.balances[key]
                        == state.balances[key]
                &&& after.events.len() == state.events.len() + 4
            }
        }),
{
    let (answer, after) = state.sale(
        seller,
        buyer,
        token_id,
        amount,
        price_per_token,
        buyer_outcome,
        seller_outcome,
    );
    if answer is Ok {
        let total_price = (price_per_token * amount) as Balance;
        let priced = LedgerState { price_per_token, ..state };
        let delivered = priced.batch_applied(seller, seller, buyer, seq![token_id], seq![amount]);
        let restocked = delivered.issued(
            seller,
            seller,
            token_id,
            state.balances[(seller, token_id)],
        );
        lemma_moved_single(token_id, amount, token_id);
        lemma_moved_single(token_id, total_price, token_id);
        assert(recipient_reaches(priced.balances, seller, buyer, seq![token_id], seq![amount], 0)
            <= Balance::MAX);
        assert(recipient_reaches(
            restocked.balances,
            buyer,
            seller,
            seq![token_id],
            seq![total_price],
            0,
        ) <= Balance::MAX);
        assert forall|key: Holder|
            key != (seller, token_id) && key != (buyer, token_id) implies after.balances[key]
            == state.balances[key] by {
            lemma_moved_single(token_id, amount, key.1);
            lemma_moved_single(token_id, total_price, key.1);
        }
    }
}

/// A sale answers as its probes were prepared. What stops it before the
/// buyer is asked is its answer whatever the outcomes are; what stops it
/// before the seller is asked is its answer whatever the seller's outcome
/// is; and where the seller is asked, its outcome decides.
pub proof fn lemma_sale_follows_its_probes(
    state: LedgerState,
    seller: AccountId,
    buyer: AccountId,
    token_id: TokenId,
    amount: Balance,
    price_per_token: Balance,
    buyer_outcome: ProbeOutcome,
    seller_outcome: ProbeOutcome,
)
    ensures
        ({
            let opening = state.sale_opening(seller, buyer, token_id, amount, price_per_token);
            let due = state.sale_payment_due(
                seller,
                buyer,
                token_id,
                amount,
                price_per_token,
                buyer_outcome,
            );
            let answer = state.sale(
                seller,
                buyer,
                token_id,
                amount,
                price_per_token,
                buyer_outcome,
                seller_outcome,
            ).0;
            &&& opening is Err ==> answer == opening && due == opening
            &&& due is Err ==> answer == due
            &&& due is Ok ==> answer == acceptance_verdict(seller_outcome)
        }),
{
}

} // verus!
