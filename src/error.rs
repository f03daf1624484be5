//! Errors of the pool operations.

use vstd::prelude::*;

verus! {

/// A failure reported by the token ledger for a transfer or an account
/// creation it was asked to perform.
#[derive(Clone, Copy, Debug, PartialEq, Eq, Structural)]
pub enum LedgerError {
    /// The debited account holds too few tokens.
    InsufficientFunds,
    /// The accounts or the mint do not belong to the same token type.
    MintMismatch,
    /// An account does not have the owner or authority the ledger requires.
    OwnerMismatch,
    /// The payer cannot fund a new account.
    Unfunded,
    /// An account to be created already exists on the ledger.
    AccountExists,
}

/// Why an operation was refused. Every error leaves the store unchanged.
#[derive(Clone, Copy, Debug, PartialEq, Eq, Structural)]
pub enum PoolError {
    /// The company identifier does not have the required length.
    InvalidCompanyId,
    /// No bump yields a derived address for the company.
    NoViableBump,
    /// A supplied bump is not the canonical one.
    BumpMismatch,
    /// The company's parameters record already exists.
    AlreadyInitialized,
    /// The company's parameters record does not exist.
    NotInitialized,
    /// The token ledger refused the transfer or account creation.
    Ledger(LedgerError),
}

impl PoolError {
    /// Whether the error is a violated precondition of the operation, as
    /// opposed to a failure reported by the ledger.
    pub fn is_precondition_violation(&self) -> (r: bool)
        ensures
            r == !(self is Ledger),
    {
        match self {
            PoolError::Ledger(_) => false,
            _ => true,
        }
    }

    /// Whether the ledger reported insufficient funds.
    pub fn is_insufficient_funds(&self) -> (r: bool)
        ensures
            r == (*self == PoolError::Ledger(LedgerError::InsufficientFunds)),
    {
        match self {
            PoolError::Ledger(LedgerError::InsufficientFunds) => true,
            _ => false,
        }
    }
}

} // verus!
