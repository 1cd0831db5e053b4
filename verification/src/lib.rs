//! A time-locked token vault.
//!
//! Depositors lock an amount of a token until an unlock time of their choice.
//! Afterwards they withdraw it, for themselves or for a beneficiary; before that
//! they may leave early and pay a penalty. An administrator can return a deposit
//! at any time, can hand the role on in two steps, and can give it up for good.
//!
//! [`contract::TimeLockVault`] holds the entry points. Each of them works on an
//! [`env::Env`]: the vault's records and the ledger's clock, and a list of the
//! effects (authorizations, storage writes and lifetimes, token transfers, events) that the
//! ledger is to perform, in order. [`model`] says what every entry point decides
//! and does; [`laws`] says what holds of the vault as a whole.

pub mod constants;
pub mod contract;
pub mod env;
pub mod errors;
pub mod events;
pub mod laws;
pub mod model;
pub mod storage;
pub mod table;
pub mod types;
