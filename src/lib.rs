//! Per-company custodial token pools: canonical address derivation, the
//! per-company parameters store, and the decisions of the three operations
//! (initialize, deposit, transfer) around an external token ledger.

pub mod derivation;
pub mod error;
pub mod store;
pub mod ops;
pub mod laws;
