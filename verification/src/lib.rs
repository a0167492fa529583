//! A sequential payments ledger: replays an ordered stream of transaction
//! records (deposits, withdrawals, disputes, resolves, chargebacks) against
//! per-client accounts, enforcing the account invariants and deciding for
//! every record whether to apply it, silently skip it, or raise a structural
//! error.

pub mod engine;
pub mod error;
pub mod laws;
pub mod model;
