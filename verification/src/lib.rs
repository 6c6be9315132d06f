//! Guards of an account-based custody ledger.
//!
//! Entries are addressed by derivation, changed only by an authorized and
//! authenticated caller, and handed to delegated logic only when the accounts
//! of the call cover every balance that was touched.

pub mod account;
pub mod error;
pub mod guards;
pub mod programs;
pub mod pubkey;
pub mod tags;
pub mod vault;
