//! The ledger as a mathematical value, and what each operation makes of it.

use vstd::prelude::*;
use crate::acceptance::ProbeOutcome;
use crate::account::AccountId;
use crate::approval::Grant;
use crate::batch::{after_batch, covered, fits};
use crate::error::Error;
use crate::event::TransferSingle;
use crate::store::{Balance, Holder, TokenId};

verus! {

/// All that the ledger keeps between operations, and the records it has
/// emitted so far.
#[verifier::ext_equal]
pub struct LedgerState {
    /// The balance of every owner in every token id; zero unless written.
    pub balances: Map<Holder, Balance>,
    /// The grants in force: each an owner and an operator that it approved.
    pub approvals: Set<Grant>,
    /// The last token id that was issued; ids up to it can be minted.
    pub token_id_nonce: TokenId,
    /// The price of the last sale.
    pub price_per_token: Balance,
    /// The records emitted and not yet taken by the host, oldest first.
    pub events: Seq<TransferSingle>,
}

/// One pair of a batch, as the record that its transfer emits.
pub open spec fn batch_events(
    caller: AccountId,
    from: AccountId,
    to: AccountId,
    ids: Seq<TokenId>,
    values: Seq<Balance>,
) -> Seq<TransferSingle> {
    Seq::new(ids.len(), |i: int| TransferSingle::moved(caller, from, to, ids[i], values[i]))
}

impl LedgerState {
    /// Every owner has a balance in every token id.
    pub open spec fn well_formed(self) -> bool {
        forall|key: Holder| self.balances.dom().contains(key)
    }

    /// The ledger at instantiation: no balance, no token id, no price.
    pub open spec fn initial() -> LedgerState {
        LedgerState {
            balances: Map::total(|key: Holder| 0u128),
            approvals: Set::empty(),
            token_id_nonce: 0,
            price_per_token: 0,
            events: Seq::empty(),
        }
    }

    /// Whether `owner` has approved `operator` to move its funds.
    pub open spec fn approved_for_all(self, owner: AccountId, operator: AccountId) -> bool {
        self.approvals.contains((owner, operator))
    }

    /// The ledger after `caller` approved `operator`, or took its approval
    /// back.
    pub open spec fn approval_set(self, caller: AccountId, operator: AccountId, approved: bool) -> LedgerState {
        LedgerState {
            approvals: if approved {
                self.approvals.insert((caller, operator))
            } else {
                self.approvals.remove((caller, operator))
            },
            ..self
        }
    }

    /// Whether `token_id` can be minted: it does not exceed the nonce.
    pub open spec fn mintable(self, token_id: TokenId) -> bool {
        token_id <= self.token_id_nonce
    }

    /// The id that the next `create` issues.
    pub open spec fn next_token_id(self) -> int {
        self.token_id_nonce + 1
    }

    /// The ledger after `caller` created a token id with `value` units.
    pub open spec fn created(self, caller: AccountId, value: Balance) -> LedgerState {
        let id = (self.token_id_nonce + 1) as TokenId;
        LedgerState {
            balances: self.balances.insert((caller, id), value),
            token_id_nonce: id,
            events: self.events.push(TransferSingle::created(caller, id, value)),
            ..self
        }
    }

    /// The ledger after `operator` had `value` issued to `holder`: the
    /// holder's balance is `value`, whatever it was.
    pub open spec fn issued(
        self,
        operator: AccountId,
        holder: AccountId,
        token_id: TokenId,
        value: Balance,
    ) -> LedgerState {
        LedgerState {
            balances: self.balances.insert((holder, token_id), value),
            events: self.events.push(TransferSingle::issued(operator, holder, token_id, value)),
            ..self
        }
    }

    /// The ledger after `caller` minted `token_id` for itself.
    pub open spec fn minted(self, caller: AccountId, token_id: TokenId, value: Balance) -> LedgerState {
        self.issued(caller, caller, token_id, value)
    }

    /// What `mint` answers.
    pub open spec fn mint_verdict(self, token_id: TokenId) -> Result<(), Error> {
        if self.mintable(token_id) {
            Ok(())
        } else {
            Err(Error::UnexistentToken)
        }
    }

    /// The ledger after one transfer: `value` leaves `from`, then reaches `to`.
    pub open spec fn transferred(
        self,
        caller: AccountId,
        from: AccountId,
        to: AccountId,
        token_id: TokenId,
        value: Balance,
    ) -> LedgerState {
        let taken = self.balances.insert(
            (from, token_id),
            (self.balances[(from, token_id)] - value) as Balance,
        );
        let given = taken.insert((to, token_id), (taken[(to, token_id)] + value) as Balance);
        LedgerState {
            balances: given,
            events: self.events.push(TransferSingle::moved(caller, from, to, token_id, value)),
            ..self
        }
    }

    /// Whether the request for a batch is in order, before any balance is
    /// read: the caller is the sender or an operator that the sender
    /// approved, the recipient is not the zero address, and ids and values
    /// pair up.
    pub open spec fn request_verdict(
        self,
        caller: AccountId,
        from: AccountId,
        to: AccountId,
        ids: Seq<TokenId>,
        values: Seq<Balance>,
    ) -> Result<(), Error> {
        if caller != from && !self.approved_for_all(from, caller) {
            Err(Error::NotApproved)
        } else if to.is_zero() {
            Err(Error::ZeroAddressTransfer)
        } else if ids.len() == 0 || ids.len() != values.len() {
            Err(Error::BatchTransferMismatch)
        } else {
            Ok(())
        }
    }

    /// Whether a batch can be applied, which no recipient is asked for.
    pub open spec fn batch_admission(
        self,
        caller: AccountId,
        from: AccountId,
        to: AccountId,
        ids: Seq<TokenId>,
        values: Seq<Balance>,
    ) -> Result<(), Error> {
        if self.request_verdict(caller, from, to, ids, values) is Err {
            self.request_verdict(caller, from, to, ids, values)
        } else if !covered(self.balances, from, to, ids, values) {
            Err(Error::InsufficientBalance)
        } else if !fits(self.balances, from, to, ids, values) {
            Err(Error::BalanceOverflow)
        } else {
            Ok(())
        }
    }

    /// What a batch transfer answers, given how the probe of the recipient
    /// ended.
    pub open spec fn batch_verdict(
        self,
        caller: AccountId,
        from: AccountId,
        to: AccountId,
        ids: Seq<TokenId>,
        values: Seq<Balance>,
        outcome: ProbeOutcome,
    ) -> Result<(), Error> {
        if self.batch_admission(caller, from, to, ids, values) is Err {
            self.batch_admission(caller, from, to, ids, values)
        } else if !outcome.accepts() {
            Err(Error::TransferRejected)
        } else {
            Ok(())
        }
    }

    /// The ledger after a batch was applied.
    pub open spec fn batch_applied(
        self,
        caller: AccountId,
        from: AccountId,
        to: AccountId,
        ids: Seq<TokenId>,
        values: Seq<Balance>,
    ) -> LedgerState {
        LedgerState {
            balances: after_batch(self.balances, from, to, ids, values),
            events: self.events + batch_events(caller, from, to, ids, values),
            ..self
        }
    }

    /// The ledger after a batch transfer: the batch is applied whole if the
    /// answer is `Ok`, and else nothing has changed.
    pub open spec fn after_batch_transfer(
        self,
        caller: AccountId,
        from: AccountId,
        to: AccountId,
        ids: Seq<TokenId>,
        values: Seq<Balance>,
        outcome: ProbeOutcome,
    ) -> LedgerState {
        if self.batch_verdict(caller, from, to, ids, values, outcome) is Ok {
            self.batch_applied(caller, from, to, ids, values)
        } else {
            self
        }
    }

    /// What stops a sale before anybody is asked: the seller is short of
    /// the amount, sells to itself, asks a total price out of the range of
    /// a balance, or the delivery could not be applied.
    pub open spec fn sale_opening(
        self,
        seller: AccountId,
        buyer: AccountId,
        token_id: TokenId,
        amount: Balance,
        price_per_token: Balance,
    ) -> Result<(), Error> {
        if self.balances[(seller, token_id)] < amount {
            Err(Error::InsufficientBalance)
        } else if buyer == seller {
            Err(Error::SelfApproval)
        } else if price_per_token * amount > Balance::MAX {
            Err(Error::BalanceOverflow)
        } else {
            self.batch_admission(seller, seller, buyer, seq![token_id], seq![amount])
        }
    }

    /// The first half of a sale: what it answers and leaves up to the point
    /// where the buyer has to pay.
    ///
    /// The price is recorded first and stays recorded. The seller then has
    /// to hold `amount` and must not be the buyer. `amount` goes to the
    /// buyer, if the buyer accepts it, and the seller's balance is issued
    /// back to what it was. The buyer then has to hold the total price.
    pub open spec fn sale_delivery(
        self,
        seller: AccountId,
        buyer: AccountId,
        token_id: TokenId,
        amount: Balance,
        price_per_token: Balance,
        buyer_outcome: ProbeOutcome,
    ) -> (Result<(), Error>, LedgerState) {
        let priced = LedgerState { price_per_token, ..self };
        let opening = self.sale_opening(seller, buyer, token_id, amount, price_per_token);
        let delivered = priced.batch_applied(seller, seller, buyer, seq![token_id], seq![amount]);
        let restocked = delivered.issued(
            seller,
            seller,
            token_id,
            self.balances[(seller, token_id)],
        );
        if opening is Err {
            (opening, priced)
        } else if !buyer_outcome.accepts() {
            (Err(Error::TransferRejected), priced)
        } else if !delivered.mintable(token_id) {
            (Err(Error::UnexistentToken), delivered)
        } else if restocked.balances[(buyer, token_id)] < price_per_token * amount {
            (Err(Error::InsufficientBalance), restocked)
        } else {
            (Ok(()), restocked)
        }
    }

    /// What stops a sale before the seller is asked, given how the probe of
    /// the buyer ended: what stops its first half, or the payment could not
    /// be applied. The seller moves the buyer's funds, so the buyer has to
    /// have approved it.
    pub open spec fn sale_payment_due(
        self,
        seller: AccountId,
        buyer: AccountId,
        token_id: TokenId,
        amount: Balance,
        price_per_token: Balance,
        buyer_outcome: ProbeOutcome,
    ) -> Result<(), Error> {
        let (answer, restocked) = self.sale_delivery(
            seller,
            buyer,
            token_id,
            amount,
            price_per_token,
            buyer_outcome,
        );
        if answer is Err {
            answer
        } else {
            restocked.batch_admission(
                seller,
                buyer,
                seller,
                seq![token_id],
                seq![(price_per_token * amount) as Balance],
            )
        }
    }

    /// What a sale answers and what it leaves.
    ///
    /// After its first half the buyer pays the total price to the seller in
    /// the same token id, if the seller accepts it, and has its balance
    /// issued back to what it was before paying. A sale that stops at one
    /// step keeps what the steps before it did.
    pub open spec fn sale(
        self,
        seller: AccountId,
        buyer: AccountId,
        token_id: TokenId,
        amount: Balance,
        price_per_token: Balance,
        buyer_outcome: ProbeOutcome,
        seller_outcome: ProbeOutcome,
    ) -> (Result<(), Error>, LedgerState) {
        let (answer, restocked) = self.sale_delivery(
            seller,
            buyer,
            token_id,
            amount,
            price_per_token,
            buyer_outcome,
        );
        let total_price = (price_per_token * amount) as Balance;
        let payment = restocked.batch_verdict(
            seller,
            buyer,
            seller,
            seq![token_id],
            seq![total_price],
            seller_outcome,
        );
        let paid = restocked.batch_applied(seller, buyer, seller, seq![token_id], seq![total_price]);
        if answer is Err {
            (answer, restocked)
        } else if payment is Err {
            (payment, restocked)
        } else {
            (Ok(()), paid.issued(seller, buyer, token_id, restocked.balances[(buyer, token_id)]))
        }
    }
}

} // verus!
