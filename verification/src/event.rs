//! The record that the ledger emits for every movement of value.

use vstd::prelude::*;
use crate::account::AccountId;
use crate::store::{Balance, TokenId};

verus! {

/// `value` units of `token_id` moved, on behalf of `operator`.
///
/// Without a `from` the units were issued; without a `to` nothing was handed
/// to anybody, which happens when a token id is created with no supply.
#[derive(Clone, Copy, Debug, PartialEq, Eq)]
pub struct TransferSingle {
    pub operator: Option<AccountId>,
    pub from: Option<AccountId>,
    pub to: Option<AccountId>,
    pub token_id: TokenId,
    pub value: Balance,
}

impl TransferSingle {
    /// The record of a transfer between two accounts.
    pub open spec fn moved(
        operator: AccountId,
        from: AccountId,
        to: AccountId,
        token_id: TokenId,
        value: Balance,
    ) -> TransferSingle {
        TransferSingle { operator: Some(operator), from: Some(from), to: Some(to), token_id, value }
    }

    /// The record of `value` units issued to `holder` at the request of
    /// `operator`.
    pub open spec fn issued(
        operator: AccountId,
        holder: AccountId,
        token_id: TokenId,
        value: Balance,
    ) -> TransferSingle {
        TransferSingle { operator: Some(operator), from: None, to: Some(holder), token_id, value }
    }

    /// The record of a new token id: as an issuance, but to nobody when
    /// there is no supply.
    pub open spec fn created(holder: AccountId, token_id: TokenId, value: Balance) -> TransferSingle {
        TransferSingle {
            operator: Some(holder),
            from: None,
            to: if value == 0 {
                None
            } else {
                Some(holder)
            },
            token_id,
            value,
        }
    }
}

} // verus!
