use vstd::prelude::*;

verus! {

/// Why a transaction was refused. A refused transaction leaves the ledger unchanged.
#[derive(Debug, Clone, Copy, PartialEq, Eq, Structural)]
pub enum TxError {
    /// A withdrawal asked for more than the available balance.
    NotEnoughFunds,
    /// The referenced transaction is not (or no longer) disputable.
    TxDoesntExist,
    /// The referenced transaction is not a deposit.
    InvalidDispute,
    /// The referenced transaction belongs to another client.
    Unauthorized,
    /// The referenced transaction is already under dispute.
    TxAlreadyDisputed,
    /// The referenced transaction is not under dispute.
    TxNotUnderDispute,
    /// A negative amount, or a balance that would leave the range of `i64`.
    InternalError,
    /// The client's account is locked.
    AccountLocked,
}

impl TxError {
    /// A short human-readable description of the error.
    pub fn message(&self) -> (r: String) {
        match self {
            TxError::NotEnoughFunds => "Account doesnt have enough funds".to_string(),
            TxError::TxDoesntExist => "Requested transaction doesnt exist".to_string(),
            TxError::InvalidDispute => "Invalid transaction to dispute".to_string(),
            TxError::Unauthorized => "Cannot dispute tx that the client doesnt own.".to_string(),
            TxError::TxAlreadyDisputed => "Transaction is already under dispute.".to_string(),
            TxError::TxNotUnderDispute => "Transaction must be under dispute.".to_string(),
            TxError::InternalError => "Internal math error.".to_string(),
            TxError::AccountLocked => "Account is locked.".to_string(),
        }
    }
}

} // verus!
