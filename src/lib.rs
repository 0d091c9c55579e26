//! Failure model of a ledger client: a layered set of error types, the
//! classification of codec failures, seed-phrase word checks and the
//! deadline-bounded transaction confirmation protocol.

pub mod confirm;
pub mod error;
pub mod hex;
pub mod mnemonic;
