//! Why an operation on the ledger was refused.

use vstd::prelude::*;

verus! {

/// The reasons for which the ledger refuses an operation.
///
/// None of them is worth retrying: the caller has to come back with other
/// arguments.
#[derive(Clone, Copy, Debug, PartialEq, Eq, Structural)]
pub enum Error {
    /// A mint names a token id that was never issued.
    UnexistentToken,
    /// The recipient of a transfer is the reserved zero address.
    ZeroAddressTransfer,
    /// The caller may not move the funds of the account it names.
    NotApproved,
    /// The sender holds less than it is asked to give.
    InsufficientBalance,
    /// Buyer and seller of a sale are the same account.
    SelfApproval,
    /// The ids and values of a batch are empty or differ in number.
    BatchTransferMismatch,
    /// The recipient was probed and did not accept the transfer.
    TransferRejected,
    /// An amount would leave the range of a balance.
    BalanceOverflow,
}

} // verus!
