use vstd::prelude::*;
use crate::model::TransactionType;

verus! {

/// A structural error: the ledger's own bookkeeping appears inconsistent.
/// These conditions should be impossible if every prior call behaved
/// correctly, but the engine checks them defensively rather than assuming
/// them. Ordinary business-rule failures (missing amount, unknown account,
/// reused transaction id, insufficient funds, and so on) are never reported
/// this way: they are soft rejections, silently skipped.
#[derive(Clone, Copy, Debug, PartialEq, Eq, Structural)]
pub enum ApplicationError {
    /// A transaction is known, but the account of the client recorded on it
    /// cannot be found.
    AccountNotFound { client_id: u16, transaction_type: TransactionType },
    /// A transaction id is marked as disputed, but its originating record
    /// cannot be found.
    TransactionNotFound { transaction_id: u32, transaction_type: TransactionType },
}

} // verus!
