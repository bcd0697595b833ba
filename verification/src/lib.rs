//! An in-memory banking ledger: a registry of account holders and a ledger of
//! accounts, with deposits and withdrawals that keep every balance
//! non-negative.

mod ids;
pub mod laws;
pub mod model;
