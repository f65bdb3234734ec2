//! The ledger itself: balances, the token id nonce and the last price, with
//! the operations that issue and move value.

use vstd::prelude::*;
use crate::acceptance::{acceptance_verdict, AcceptanceProbe, ProbeOutcome};
use crate::account::AccountId;
use crate::approval::ApprovalRegistry;
use crate::batch::{
    after_batch, covered, credited, debited, fits, moved, moved_upto, recipient_reaches,
    sender_holds,
};
use crate::error::Error;
use crate::event::TransferSingle;
use crate::laws::{lemma_batch_moves_value, lemma_transfer_moves_value};
use crate::state::{batch_events, LedgerState};
use crate::store::{Balance, BalanceStore, TokenId};

verus! {

/// A multi-token ledger.
///
/// The host names the caller of every operation, and takes from the ledger
/// the records that the operations emit.
pub struct Incrementer {
    price_per_token: Balance,
    balances: BalanceStore,
    approvals: ApprovalRegistry,
    token_id_nonce: TokenId,
    events: Vec<TransferSingle>,
}

impl View for Incrementer {
    type V = LedgerState;

    closed spec fn view(&self) -> LedgerState {
        LedgerState {
            balances: self.balances@,
            approvals: self.approvals@,
            token_id_nonce: self.token_id_nonce,
            price_per_token: self.price_per_token,
            events: self.events@,
        }
    }
}

impl Incrementer {
    /// The balances of a ledger are defined for every owner and token id.
    pub proof fn lemma_well_formed(&self)
        ensures
            self@.well_formed(),
    {
        self.balances.lemma_total();
    }

    /// A ledger with no balance, no approval, no token id and no price.
    pub fn new() -> (ledger: Incrementer)
        ensures
            ledger@ == LedgerState::initial(),
    {
        Incrementer {
            price_per_token: 0,
            balances: BalanceStore::new(),
            approvals: ApprovalRegistry::new(),
            token_id_nonce: 0,
            events: Vec::new(),
        }
    }

    /// The ledger as it was persisted: its balances, its approvals, its
    /// nonce and its last price, with no record waiting for the host.
    pub fn restore(
        balances: BalanceStore,
        approvals: ApprovalRegistry,
        token_id_nonce: TokenId,
        price_per_token: Balance,
    ) -> (ledger: Incrementer)
        ensures
            ledger@ == (LedgerState {
                balances: balances@,
                approvals: approvals@,
                token_id_nonce,
                price_per_token,
                events: Seq::empty(),
            }),
    {
        Incrementer { price_per_token, balances, approvals, token_id_nonce, events: Vec::new() }
    }

    /// What `owner` holds of `token_id`.
    pub fn balance_of(&self, owner: AccountId, token_id: TokenId) -> (balance: Balance)
        ensures
            balance == self@.balances[(owner, token_id)],
    {
        self.balances.get(owner, token_id)
    }

    /// Whether `owner` has approved `operator` to move its funds.
    pub fn is_approved_for_all(&self, owner: AccountId, operator: AccountId) -> (approved: bool)
        ensures
            approved == self@.approvals.contains((owner, operator)),
            approved == self@.approved_for_all(owner, operator),
    {
        self.approvals.contains(owner, operator)
    }

    /// Approves `operator` to move all funds of `caller`, or takes the
    /// approval back.
    pub fn set_approval_for_all(&mut self, caller: AccountId, operator: AccountId, approved: bool)
        ensures
            final(self)@ == old(self)@.approval_set(caller, operator, approved),
            final(self)@.approvals == (if approved {
                old(self)@.approvals.insert((caller, operator))
            } else {
                old(self)@.approvals.remove((caller, operator))
            }),
            final(self)@.approved_for_all(caller, operator) == approved,
            final(self)@.balances == old(self)@.balances,
    {
        self.approvals.set(caller, operator, approved);
    }

    /// The last token id that was issued, zero if none was.
    pub fn token_id_nonce(&self) -> (nonce: TokenId)
        ensures
            nonce == self@.token_id_nonce,
    {
        self.token_id_nonce
    }

    /// The price of the last sale.
    pub fn get(&self) -> (price: Balance)
        ensures
            price == self@.price_per_token,
    {
        self.price_per_token
    }

    /// The records emitted since the host last took them, oldest first.
    pub fn events(&self) -> (events: &Vec<TransferSingle>)
        ensures
            events@ == self@.events,
    {
        &self.events
    }

    /// Hands the emitted records to the host and forgets them.
    pub fn take_events(&mut self) -> (events: Vec<TransferSingle>)
        ensures
            events@ == old(self)@.events,
            final(self)@ == (LedgerState { events: Seq::empty(), ..old(self)@ }),
    {
        let mut events: Vec<TransferSingle> = Vec::new();
        std::mem::swap(&mut events, &mut self.events);
        events
    }

    /// Issues the next token id and gives `value` units of it to `caller`.
    pub fn create(&mut self, caller: AccountId, value: Balance) -> (token_id: TokenId)
        requires
            old(self)@.token_id_nonce < TokenId::MAX,
        ensures
            token_id == old(self)@.next_token_id(),
            token_id > old(self)@.token_id_nonce,
            final(self)@ == old(self)@.created(caller, value),
            final(self)@.token_id_nonce == token_id,
            final(self)@.mintable(token_id),
            final(self)@.balances[(caller, token_id)] == value,
    {
        self.token_id_nonce += 1;
        self.balances.set(caller, self.token_id_nonce, value);
        self.events.push(
            TransferSingle {
                operator: Some(caller),
                from: None,
                to: if value == 0 {
                    None
                } else {
                    Some(caller)
                },
                token_id: self.token_id_nonce,
                value,
            },
        );
        self.token_id_nonce
    }

    /// Sets what `caller` holds of an issued token id to `value`.
    pub fn mint(&mut self, caller: AccountId, token_id: TokenId, value: Balance) -> (result: Result<
        (),
        Error,
    >)
        ensures
            result == old(self)@.mint_verdict(token_id),
            token_id > old(self)@.token_id_nonce ==> result == Err::<(), Error>(
                Error::UnexistentToken,
            ),
            token_id <= old(self)@.token_id_nonce ==> result == Ok::<(), Error>(()),
            result is Ok ==> final(self)@ == old(self)@.minted(caller, token_id, value),
            result is Err ==> final(self)@ == old(self)@,
    {
        if !(token_id <= self.token_id_nonce) {
            return Err(Error::UnexistentToken);
        }
        self.issue(caller, caller, token_id, value);
        Ok(())
    }

    /// Sets what `holder` holds of `token_id` to `value`, at the request of
    /// `operator`.
    fn issue(&mut self, operator: AccountId, holder: AccountId, token_id: TokenId, value: Balance)
        ensures
            final(self)@ == old(self)@.issued(operator, holder, token_id, value),
    {
        self.balances.set(holder, token_id, value);
        self.events.push(
            TransferSingle {
                operator: Some(operator),
                from: None,
                to: Some(holder),
                token_id,
                value,
            },
        );
    }

    /// Moves `value` units of `token_id` from `from` to `to`, unchecked: the
    /// caller has made sure that `from` holds them and `to` has room.
    pub fn perform_transfer(
        &mut self,
        caller: AccountId,
        from: AccountId,
        to: AccountId,
        token_id: TokenId,
        value: Balance,
    )
        requires
            value <= old(self)@.balances[(from, token_id)],
            from != to ==> old(self)@.balances[(to, token_id)] + value <= Balance::MAX,
        ensures
            final(self)@ == old(self)@.transferred(caller, from, to, token_id, value),
            from != to ==> final(self)@.balances[(from, token_id)] == old(self)@.balances[(
                from,
                token_id,
            )] - value,
            from != to ==> final(self)@.balances[(to, token_id)] == old(self)@.balances[(
                to,
                token_id,
            )] + value,
            from == to ==> final(self)@.balances == old(self)@.balances,
            forall|key: (AccountId, TokenId)|
                key != (from, token_id) && key != (to, token_id) ==> final(self)@.balances[key]
                    == old(self)@.balances[key],
    {
        proof {
            self.lemma_well_formed();
            lemma_transfer_moves_value(self@, caller, from, to, token_id, value);
        }
        let sender_balance = self.balances.get(from, token_id);
        self.balances.set(from, token_id, sender_balance - value);
        let recipient_balance = self.balances.get(to, token_id);
        self.balances.set(to, token_id, recipient_balance + value);
        self.events.push(
            TransferSingle {
                operator: Some(caller),
                from: Some(from),
                to: Some(to),
                token_id,
                value,
            },
        );
    }

    /// Looks at the request for a batch before any balance is read.
    fn check_request(
        &self,
        caller: AccountId,
        from: AccountId,
        to: AccountId,
        token_ids: &Vec<TokenId>,
        values: &Vec<Balance>,
    ) -> (result: Result<(), Error>)
        ensures
            result == self@.request_verdict(caller, from, to, token_ids@, values@),
    {
        if caller != from {
            if !self.is_approved_for_all(from, caller) {
                return Err(Error::NotApproved);
            }
        }
        if to.is_zero_address() {
            return Err(Error::ZeroAddressTransfer);
        }
        if token_ids.len() == 0 || token_ids.len() != values.len() {
            return Err(Error::BatchTransferMismatch);
        }
        Ok(())
    }

    /// Takes every pair of the batch from the sender, on a copy of the
    /// balances, and gives the copy back unless the sender runs short.
    fn stage_debits(
        &self,
        from: AccountId,
        to: AccountId,
        token_ids: &Vec<TokenId>,
        values: &Vec<Balance>,
    ) -> (staged: Option<BalanceStore>)
        requires
            token_ids.len() == values.len(),
        ensures
            staged is Some <==> covered(self@.balances, from, to, token_ids@, values@),
            staged matches Some(store) ==> store@ == debited(
                self@.balances,
                from,
                to,
                token_ids@,
                values@,
                token_ids@.len(),
            ),
    {
        let ghost held = self@.balances;
        let ghost ids = token_ids@;
        let ghost vals = values@;
        let mut staged = self.balances.clone();
        proof {
            self.balances.lemma_total();
            assert(staged@ =~= debited(held, from, to, ids, vals, 0));
        }
        let mut i: usize = 0;
        while i < token_ids.len()
            invariant
                0 <= i <= token_ids.len(),
                token_ids.len() == values.len(),
                held == self@.balances,
                ids == token_ids@,
                vals == values@,
                staged@ == debited(held, from, to, ids, vals, i as nat),
                forall|j: int| 0 <= j < i ==> vals[j] <= #[trigger] sender_holds(held, from, to, ids, vals, j),
                from != to ==> forall|t: TokenId| #[trigger]
                    moved_upto(ids, vals, i as nat, t) <= held[(from, t)],
            decreases token_ids.len() - i,
        {
            let id = token_ids[i];
            let value = values[i];
            let balance = staged.get(from, id);
            assert(balance == sender_holds(held, from, to, ids, vals, i as int));
            if balance < value {
                return None;
            }
            if from != to {
                staged.set(from, id, balance - value);
                proof {
                    assert forall|t: TokenId| #[trigger]
                        moved_upto(ids, vals, (i + 1) as nat, t) <= held[(from, t)] by {
                        assert(moved_upto(ids, vals, i as nat, t) <= held[(from, t)]);
                    }
                    assert(staged@ =~= debited(held, from, to, ids, vals, (i + 1) as nat));
                }
            }
            i += 1;
        }
        Some(staged)
    }

    /// Hands every pair of the batch to the recipient, on the copy that the
    /// sender has been debited on, and says whether the recipient had room.
    fn stage_credits(
        &self,
        staged: &mut BalanceStore,
        from: AccountId,
        to: AccountId,
        token_ids: &Vec<TokenId>,
        values: &Vec<Balance>,
    ) -> (room: bool)
        requires
            token_ids.len() == values.len(),
            covered(self@.balances, from, to, token_ids@, values@),
            old(staged)@ == debited(
                self@.balances,
                from,
                to,
                token_ids@,
                values@,
                token_ids@.len(),
            ),
        ensures
            room == fits(self@.balances, from, to, token_ids@, values@),
            room ==> final(staged)@ == after_batch(self@.balances, from, to, token_ids@, values@),
    {
        let ghost held = self@.balances;
        let ghost ids = token_ids@;
        let ghost vals = values@;
        if from == to {
            return true;
        }
        proof {
            self.balances.lemma_total();
            assert forall|t: TokenId|
                held[(to, t)] + #[trigger] moved_upto(ids, vals, 0, t) <= Balance::MAX by {}
            assert(staged@ =~= credited(held, from, to, ids, vals, 0));
        }
        let mut i: usize = 0;
        while i < token_ids.len()
            invariant
                0 <= i <= token_ids.len(),
                token_ids.len() == values.len(),
                from != to,
                held == self@.balances,
                ids == token_ids@,
                vals == values@,
                staged@ == credited(held, from, to, ids, vals, i as nat),
                forall|j: int|
                    0 <= j < i ==> #[trigger] recipient_reaches(held, from, to, ids, vals, j)
                        <= Balance::MAX,
                forall|t: TokenId|
                    held[(to, t)] + #[trigger] moved_upto(ids, vals, i as nat, t) <= Balance::MAX,
            decreases token_ids.len() - i,
        {
            let id = token_ids[i];
            let value = values[i];
            let balance = staged.get(to, id);
            assert(balance == held[(to, id)] + moved_upto(ids, vals, i as nat, id));
            assert(balance + value == recipient_reaches(held, from, to, ids, vals, i as int));
            if value > Balance::MAX - balance {
                return false;
            }
            staged.set(to, id, balance + value);
            proof {
                assert forall|t: TokenId|
                    held[(to, t)] + #[trigger] moved_upto(ids, vals, (i + 1) as nat, t)
                        <= Balance::MAX by {
                    assert(held[(to, t)] + moved_upto(ids, vals, i as nat, t) <= Balance::MAX);
                }
                assert(staged@ =~= credited(held, from, to, ids, vals, (i + 1) as nat));
            }
            i += 1;
        }
        assert(staged@ =~= after_batch(held, from, to, ids, vals));
        true
    }

    /// Applies the batch to a copy of the balances, or says why it cannot be
    /// applied. The ledger itself is only read.
    fn stage_batch(
        &self,
        caller: AccountId,
        from: AccountId,
        to: AccountId,
        token_ids: &Vec<TokenId>,
        values: &Vec<Balance>,
    ) -> (result: Result<BalanceStore, Error>)
        ensures
            match result {
                Ok(staged) => self@.batch_admission(caller, from, to, token_ids@, values@) is Ok
                    && staged@ == after_batch(self@.balances, from, to, token_ids@, values@),
                Err(error) => self@.batch_admission(caller, from, to, token_ids@, values@) == Err::<
                    (),
                    Error,
                >(error),
            },
    {
        match self.check_request(caller, from, to, token_ids, values) {
            Err(error) => {
                return Err(error);
            },
            Ok(()) => {},
        }
        let mut staged = match self.stage_debits(from, to, token_ids, values) {
            None => {
                return Err(Error::InsufficientBalance);
            },
            Some(staged) => staged,
        };
        if !self.stage_credits(&mut staged, from, to, token_ids, values) {
            return Err(Error::BalanceOverflow);
        }
        Ok(staged)
    }

    /// The records of a batch, one for each pair, in order.
    fn batch_records(
        caller: AccountId,
        from: AccountId,
        to: AccountId,
        token_ids: &Vec<TokenId>,
        values: &Vec<Balance>,
    ) -> (records: Vec<TransferSingle>)
        requires
            token_ids.len() == values.len(),
        ensures
            records@ == batch_events(caller, from, to, token_ids@, values@),
    {
        let mut records: Vec<TransferSingle> = Vec::new();
        let mut i: usize = 0;
        while i < token_ids.len()
            invariant
                0 <= i <= token_ids.len(),
                token_ids.len() == values.len(),
                records@ == batch_events(caller, from, to, token_ids@, values@).take(i as int),
            decreases token_ids.len() - i,
        {
            records.push(
                TransferSingle {
                    operator: Some(caller),
                    from: Some(from),
                    to: Some(to),
                    token_id: token_ids[i],
                    value: values[i],
                },
            );
            assert(records@ =~= batch_events(caller, from, to, token_ids@, values@).take(i + 1));
            i += 1;
        }
        assert(records@ =~= batch_events(caller, from, to, token_ids@, values@));
        records
    }

    /// Says whether a batch would be applied if its recipient accepted, and
    /// if so, what the host has to ask the recipient: the first pair stands
    /// for the whole batch. Nothing is changed.
    pub fn prepare_batch_transfer(
        &self,
        caller: AccountId,
        from: AccountId,
        to: AccountId,
        token_ids: &Vec<TokenId>,
        values: &Vec<Balance>,
        data: Vec<u8>,
    ) -> (result: Result<AcceptanceProbe, Error>)
        ensures
            match result {
                Ok(probe) => {
                    &&& self@.batch_admission(caller, from, to, token_ids@, values@) is Ok
                    &&& probe.operator == caller
                    &&& probe.from == from
                    &&& probe.to == to
                    &&& probe.token_id == token_ids@[0]
                    &&& probe.value == values@[0]
                    &&& probe.data == data
                },
                Err(error) => self@.batch_admission(caller, from, to, token_ids@, values@) == Err::<
                    (),
                    Error,
                >(error),
            },
    {
        match self.stage_batch(caller, from, to, token_ids, values) {
            Err(error) => Err(error),
            Ok(_) => Ok(
                AcceptanceProbe {
                    operator: caller,
                    from,
                    to,
                    token_id: token_ids[0],
                    value: values[0],
                    data,
                },
            ),
        }
    }

    /// Says what the outcome of a probe means for the transfer: a recipient
    /// without code accepts, a program accepts by its answer alone.
    pub fn transfer_acceptance_check(outcome: &ProbeOutcome) -> (result: Result<(), Error>)
        ensures
            result == acceptance_verdict(*outcome),
            outcome.no_code() ==> result == Ok::<(), Error>(()),
            !outcome.accepts() ==> result == Err::<(), Error>(Error::TransferRejected),
    {
        if outcome.is_accepting() {
            Ok(())
        } else {
            Err(Error::TransferRejected)
        }
    }

    /// Moves a batch of values from `from` to `to`, all of it or none.
    ///
    /// `outcome` is how the probe of `to` ended. The batch is applied only
    /// if it can be applied whole and `to` accepts.
    pub fn safe_batch_transfer_from(
        &mut self,
        caller: AccountId,
        from: AccountId,
        to: AccountId,
        token_ids: Vec<TokenId>,
        values: Vec<Balance>,
        outcome: &ProbeOutcome,
    ) -> (result: Result<(), Error>)
        ensures
            result == old(self)@.batch_verdict(caller, from, to, token_ids@, values@, *outcome),
            final(self)@ == old(self)@.after_batch_transfer(
                caller,
                from,
                to,
                token_ids@,
                values@,
                *outcome,
            ),
            result is Err ==> final(self)@ == old(self)@,
            caller != from && !old(self)@.approved_for_all(from, caller) ==> result == Err::<
                (),
                Error,
            >(Error::NotApproved),
            caller == from || old(self)@.approved_for_all(from, caller) ==> result != Err::<
                (),
                Error,
            >(Error::NotApproved),
            (caller == from || old(self)@.approved_for_all(from, caller)) && to.is_zero()
                ==> result == Err::<(), Error>(Error::ZeroAddressTransfer),
            (caller == from || old(self)@.approved_for_all(from, caller)) && !to.is_zero()
                && (token_ids@.len() == 0 || token_ids@.len() != values@.len()) ==> result
                == Err::<(), Error>(Error::BatchTransferMismatch),
            result is Ok && from != to ==> forall|token_id: TokenId|
                #![trigger moved(token_ids@, values@, token_id)]
                {
                    &&& final(self)@.balances[(from, token_id)] == old(self)@.balances[(
                        from,
                        token_id,
                    )] - moved(token_ids@, values@, token_id)
                    &&& final(self)@.balances[(to, token_id)] == old(self)@.balances[(
                        to,
                        token_id,
                    )] + moved(token_ids@, values@, token_id)
                },
            result is Ok && from == to ==> final(self)@.balances == old(self)@.balances,
            forall|key: (AccountId, TokenId)|
                key.0 != from && key.0 != to ==> final(self)@.balances[key]
                    == old(self)@.balances[key],
    {
        proof {
            self.lemma_well_formed();
            if self@.batch_verdict(caller, from, to, token_ids@, values@, *outcome) is Ok {
                assert forall|token_id: TokenId|
                    #![trigger moved(token_ids@, values@, token_id)]
                    true implies {
                    let after = self@.after_batch_transfer(
                        caller,
                        from,
                        to,
                        token_ids@,
                        values@,
                        *outcome,
                    ).balances;
                    &&& from != to ==> after[(from, token_id)] == self@.balances[(from, token_id)]
                        - moved(token_ids@, values@, token_id)
                    &&& from != to ==> after[(to, token_id)] == self@.balances[(to, token_id)]
                        + moved(token_ids@, values@, token_id)
                } by {
                    lemma_batch_moves_value(
                        self@,
                        caller,
                        from,
                        to,
                        token_ids@,
                        values@,
                        *outcome,
                        token_id,
                    );
                }
            }
        }
        let staged = match self.stage_batch(caller, from, to, &token_ids, &values) {
            Err(error) => {
                return Err(error);
            },
            Ok(staged) => staged,
        };
        match Self::transfer_acceptance_check(outcome) {
            Err(error) => {
                return Err(error);
            },
            Ok(()) => {},
        }
        let mut records = Self::batch_records(caller, from, to, &token_ids, &values);
        self.balances = staged;
        self.events.append(&mut records);
        Ok(())
    }

    /// A batch of one pair.
    fn single(token_id: TokenId, value: Balance) -> (pair: (Vec<TokenId>, Vec<Balance>))
        ensures
            pair.0@ == seq![token_id],
            pair.1@ == seq![value],
    {
        let mut token_ids: Vec<TokenId> = Vec::new();
        token_ids.push(token_id);
        let mut values: Vec<Balance> = Vec::new();
        values.push(value);
        assert(token_ids@ =~= seq![token_id]);
        assert(values@ =~= seq![value]);
        (token_ids, values)
    }

    /// A copy of the ledger to try a sale on, with no record in it.
    fn trial(&self) -> (copy: Incrementer)
        ensures
            copy@ == (LedgerState { events: Seq::empty(), ..self@ }),
    {
        Incrementer {
            price_per_token: self.price_per_token,
            balances: self.balances.clone(),
            approvals: self.approvals.clone(),
            token_id_nonce: self.token_id_nonce,
            events: Vec::new(),
        }
    }

    /// Says whether a sale gets as far as asking the buyer, and if so, what
    /// the host has to ask it. Nothing is changed.
    pub fn prepare_sale(
        &self,
        caller: AccountId,
        buyer: AccountId,
        token_id: TokenId,
        amount: Balance,
        price_per_token: Balance,
    ) -> (result: Result<AcceptanceProbe, Error>)
        ensures
            match result {
                Ok(probe) => {
                    &&& self@.sale_opening(caller, buyer, token_id, amount, price_per_token) is Ok
                    &&& probe.operator == caller
                    &&& probe.from == caller
                    &&& probe.to == buyer
                    &&& probe.token_id == token_id
                    &&& probe.value == amount
                    &&& probe.data@ == Seq::<u8>::empty()
                },
                Err(error) => self@.sale_opening(caller, buyer, token_id, amount, price_per_token)
                    == Err::<(), Error>(error),
            },
    {
        let seller = caller;
        if self.balance_of(seller, token_id) < amount {
            return Err(Error::InsufficientBalance);
        }
        if buyer == seller {
            return Err(Error::SelfApproval);
        }
        if price_per_token.checked_mul(amount).is_none() {
            return Err(Error::BalanceOverflow);
        }
        let (token_ids, values) = Self::single(token_id, amount);
        self.prepare_batch_transfer(seller, seller, buyer, &token_ids, &values, Vec::new())
    }

    /// Says whether a sale gets as far as asking the seller, given how the
    /// probe of the buyer ended, and if so, what the host has to ask it.
    /// Nothing is changed.
    pub fn prepare_sale_payment(
        &self,
        caller: AccountId,
        buyer: AccountId,
        token_id: TokenId,
        amount: Balance,
        price_per_token: Balance,
        buyer_outcome: &ProbeOutcome,
    ) -> (result: Result<AcceptanceProbe, Error>)
        ensures
            match result {
                Ok(probe) => {
                    &&& self@.sale_payment_due(
                        caller,
                        buyer,
                        token_id,
                        amount,
                        price_per_token,
                        *buyer_outcome,
                    ) is Ok
                    &&& probe.operator == caller
                    &&& probe.from == buyer
                    &&& probe.to == caller
                    &&& probe.token_id == token_id
                    &&& probe.value == price_per_token * amount
                    &&& probe.data@ == Seq::<u8>::empty()
                },
                Err(error) => self@.sale_payment_due(
                    caller,
                    buyer,
                    token_id,
                    amount,
                    price_per_token,
                    *buyer_outcome,
                ) == Err::<(), Error>(error),
            },
    {
        let mut trial = self.trial();
        let total_price = match trial.deliver(
            caller,
            buyer,
            token_id,
            amount,
            price_per_token,
            buyer_outcome,
        ) {
            Err(error) => {
                return Err(error);
            },
            Ok((total_price, _)) => total_price,
        };
        let (token_ids, values) = Self::single(token_id, total_price);
        trial.prepare_batch_transfer(caller, buyer, caller, &token_ids, &values, Vec::new())
    }

    /// The first half of a sale, up to the point where the buyer has to
    /// pay. Gives the total price and what the buyer then holds.
    fn deliver(
        &mut self,
        caller: AccountId,
        buyer: AccountId,
        token_id: TokenId,
        amount: Balance,
        price_per_token: Balance,
        buyer_outcome: &ProbeOutcome,
    ) -> (result: Result<(Balance, Balance), Error>)
        ensures
            final(self)@ == old(self)@.sale_delivery(
                caller,
                buyer,
                token_id,
                amount,
                price_per_token,
                *buyer_outcome,
            ).1,
            match result {
                Ok((total_price, buyer_balance)) => {
                    &&& old(self)@.sale_delivery(
                        caller,
                        buyer,
                        token_id,
                        amount,
                        price_per_token,
                        *buyer_outcome,
                    ).0 is Ok
                    &&& total_price == price_per_token * amount
                    &&& buyer_balance == final(self)@.balances[(buyer, token_id)]
                },
                Err(error) => old(self)@.sale_delivery(
                    caller,
                    buyer,
                    token_id,
                    amount,
                    price_per_token,
                    *buyer_outcome,
                ).0 == Err::<(), Error>(error),
            },
    {
        self.price_per_token = price_per_token;
        let seller = caller;
        let seller_balance = self.balance_of(seller, token_id);
        if seller_balance < amount {
            return Err(Error::InsufficientBalance);
        }
        if buyer == seller {
            return Err(Error::SelfApproval);
        }
        let total_price = match price_per_token.checked_mul(amount) {
            None => {
                return Err(Error::BalanceOverflow);
            },
            Some(total_price) => total_price,
        };
        let (token_ids, values) = Self::single(token_id, amount);
        match self.safe_batch_transfer_from(seller, seller, buyer, token_ids, values, buyer_outcome) {
            Err(error) => {
                return Err(error);
            },
            Ok(()) => {},
        }
        if !(token_id <= self.token_id_nonce) {
            return Err(Error::UnexistentToken);
        }
        self.issue(seller, seller, token_id, seller_balance);
        let buyer_balance = self.balance_of(buyer, token_id);
        if buyer_balance < total_price {
            return Err(Error::InsufficientBalance);
        }
        Ok((total_price, buyer_balance))
    }

    /// Sells `amount` units of `token_id` from `caller` to `buyer`, each at
    /// `price_per_token`, paid in the same token id.
    ///
    /// `buyer_outcome` is how the probe of the buyer ended, for the
    /// delivery; `seller_outcome` how that of the seller ended, for the
    /// payment. An outcome is looked at only where the sale gets as far as
    /// its probe.
    pub fn sell_token(
        &mut self,
        caller: AccountId,
        buyer: AccountId,
        token_id: TokenId,
        amount: Balance,
        price_per_token: Balance,
        buyer_outcome: &ProbeOutcome,
        seller_outcome: &ProbeOutcome,
    ) -> (result: Result<(), Error>)
        ensures
            (result, final(self)@) == old(self)@.sale(
                caller,
                buyer,
                token_id,
                amount,
                price_per_token,
                *buyer_outcome,
                *seller_outcome,
            ),
    {
        let seller = caller;
        let (total_price, buyer_balance) = match self.deliver(
            seller,
            buyer,
            token_id,
            amount,
            price_per_token,
            buyer_outcome,
        ) {
            Err(error) => {
                return Err(error);
            },
            Ok(reached) => reached,
        };
        let (token_ids, values) = Self::single(token_id, total_price);
        match self.safe_batch_transfer_from(seller, buyer, seller, token_ids, values, seller_outcome) {
            Err(error) => {
                return Err(error);
            },
            Ok(()) => {},
        }
        self.issue(seller, buyer, token_id, buyer_balance);
        Ok(())
    }

    /// Runs a sale of nothing from `caller` to itself, which is refused, and
    /// drops the refusal: only the price, zero, is recorded.
    pub fn inc(&mut self, caller: AccountId)
        ensures
            final(self)@ == (LedgerState { price_per_token: 0, ..old(self)@ }),
    {
        let refused = ProbeOutcome::Failed;
        let _ = self.sell_token(caller, caller, 0, 0, 0, &refused, &refused);
    }
}

} // verus!
