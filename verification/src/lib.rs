//! A multi-token ledger: balances of many token ids per account, with
//! issuance, batch transfers and a recipient acceptance handshake.

pub mod acceptance;
pub mod approval;
pub mod account;
pub mod batch;
pub mod error;
pub mod event;
pub mod laws;
pub mod ledger;
pub mod state;
pub mod store;

pub use acceptance::{
    AcceptanceProbe, ProbeOutcome, ACCEPTANCE_GAS_LIMIT, ON_ERC_1155_RECEIVED_SELECTOR,
};
pub use account::AccountId;
pub use approval::ApprovalRegistry;
pub use error::Error;
pub use event::TransferSingle;
pub use ledger::Incrementer;
pub use store::{Balance, BalanceStore, TokenId};
