//! The acceptance handshake with the recipient of a transfer.
//!
//! A recipient may be a plain account or a program. The host puts one probe
//! to it; the ledger says what the probe holds and what its outcome means.

use vstd::prelude::*;
use crate::account::AccountId;
use crate::error::Error;
use crate::store::{Balance, TokenId};

verus! {

/// The four bytes that name the receiver entry point, and that a recipient
/// answers with to accept a transfer.
pub const ON_ERC_1155_RECEIVED_SELECTOR: [u8; 4] = [0xF2, 0x3A, 0x6E, 0x61];

/// The most gas that a probe may use; a probe that needs more has failed.
pub const ACCEPTANCE_GAS_LIMIT: u64 = 5000;

/// The accepting answer, as a sequence of bytes.
pub open spec fn accepting_answer() -> Seq<u8> {
    seq![0xF2u8, 0x3Au8, 0x6Eu8, 0x61u8]
}

/// The question put to the recipient of a transfer.
#[derive(Debug, PartialEq, Eq)]
pub struct AcceptanceProbe {
    /// The account that asked for the transfer.
    pub operator: AccountId,
    /// The account that gives.
    pub from: AccountId,
    /// The account that is asked: the recipient.
    pub to: AccountId,
    pub token_id: TokenId,
    pub value: Balance,
    /// Bytes that the operator sends along, uninterpreted.
    pub data: Vec<u8>,
}

/// How a probe ended.
#[derive(Debug, PartialEq, Eq)]
pub enum ProbeOutcome {
    /// The recipient ran and answered with these bytes.
    Returned(Vec<u8>),
    /// The recipient ran, but the call did not reach a valid entry point or
    /// its answer could not be read.
    Malformed,
    /// No code is deployed at the recipient.
    CodeNotFound,
    /// The recipient is a plain account, not a program.
    NotCallable,
    /// The call failed in any other way.
    Failed,
}

impl ProbeOutcome {
    /// Whether the recipient takes the transfer: it is no program, or it
    /// answered with the accepting bytes.
    pub open spec fn accepts(self) -> bool {
        match self {
            ProbeOutcome::Returned(answer) => answer@ == accepting_answer(),
            ProbeOutcome::CodeNotFound => true,
            ProbeOutcome::NotCallable => true,
            ProbeOutcome::Malformed => false,
            ProbeOutcome::Failed => false,
        }
    }

    /// Whether the recipient has no executable code.
    pub open spec fn no_code(self) -> bool {
        self is CodeNotFound || self is NotCallable
    }

    /// Decides whether the recipient takes the transfer.
    pub fn is_accepting(&self) -> (accepted: bool)
        ensures
            accepted == self.accepts(),
    {
        match self {
            ProbeOutcome::Returned(answer) => {
                let accepted = answer.len() == 4 && answer[0] == ON_ERC_1155_RECEIVED_SELECTOR[0]
                    && answer[1] == ON_ERC_1155_RECEIVED_SELECTOR[1] && answer[2]
                    == ON_ERC_1155_RECEIVED_SELECTOR[2] && answer[3]
                    == ON_ERC_1155_RECEIVED_SELECTOR[3];
                proof {
                    if accepted {
                        assert(answer@ =~= accepting_answer());
                    }
                }
                accepted
            },
            ProbeOutcome::CodeNotFound => true,
            ProbeOutcome::NotCallable => true,
            ProbeOutcome::Malformed => false,
            ProbeOutcome::Failed => false,
        }
    }
}

/// What the outcome of a probe means for the transfer it belongs to.
pub open spec fn acceptance_verdict(outcome: ProbeOutcome) -> Result<(), Error> {
    if outcome.accepts() {
        Ok(())
    } else {
        Err(Error::TransferRejected)
    }
}

} // verus!
