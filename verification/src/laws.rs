//! What holds of the vault as a whole.
//!
//! [`calls`] puts the calls that can change the vault side by side; the other modules
//! state and prove laws of all of them, or of several of them together.

pub mod acceptance;
pub mod administration;
pub mod calls;
pub mod depositors;
pub mod funds;
pub mod ledger;
pub mod locks;
pub mod outcomes;
pub mod validity;
