//! Why an operation on a position is rejected.

use vstd::prelude::*;

verus! {

/// The reasons for which an operation fails. A failed operation has no effect:
/// no funds move and no record changes.
#[derive(Clone, Copy, Debug, PartialEq, Eq, Hash, Structural)]
pub enum DcaError {
    /// The owner holds less than the amount to deposit.
    InsufficientBalance,
    /// The token ledger refused the transfer for another reason.
    LedgerTransferRejected,
    /// The slot holds no record for the position.
    RecordNotFound,
    /// The exchange cannot fill the swap at the minimum output or better.
    SlippageExceeded,
    /// The authority derived from owner and position is not the one that
    /// holds the funds. The position cannot be used; retrying does not help.
    AuthorityDerivationMismatch,
    /// The exchange rejected the call for another reason.
    ExchangeCallRejected,
}

} // verus!
