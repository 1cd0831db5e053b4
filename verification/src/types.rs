//! The values that the vault stores and exchanges.

use vstd::prelude::*;

use crate::table::Key;

verus! {

/// What an address stands for on the ledger.
#[derive(Clone, Copy, Debug, PartialEq, Eq, Hash, Structural)]
pub enum AddressKind {
    /// An account, identified by its public key.
    Account,
    /// A contract, identified by its hash.
    Contract,
}

/// An address on the ledger: its kind, and its 256-bit identifier in two halves.
#[derive(Clone, Copy, Debug, PartialEq, Eq, Hash, Structural)]
pub struct Address {
    pub kind: AddressKind,
    pub high: u128,
    pub low: u128,
}

impl Key for Address {
    fn same(&self, other: &Self) -> (b: bool) {
        *self == *other
    }
}

/// Names a deposit: the depositor, and the number among the depositor's deposits.
#[derive(Clone, Copy, Debug, PartialEq, Eq, Hash, Structural)]
pub struct DepositKey {
    pub depositor: Address,
    pub deposit_id: u32,
}

impl Key for DepositKey {
    fn same(&self, other: &Self) -> (b: bool) {
        *self == *other
    }
}

/// One active deposit.
#[derive(Clone, Copy, Debug, PartialEq, Eq, Hash, Structural)]
pub struct VaultEntry {
    /// The token that is locked.
    pub token: Address,
    /// How much of it is locked.
    pub amount: i128,
    /// The time, in seconds, from which the deposit can be withdrawn.
    pub unlock_time: u64,
    /// The share that an early exit costs, in basis points.
    pub penalty_bps: u32,
    /// Unused: the beneficiary is kept per depositor, not per deposit.
    pub beneficiary: Option<Address>,
}

/// What became of one depositor of a batch.
#[derive(Clone, Copy, Debug, PartialEq, Eq, Hash, Structural)]
pub struct WithdrawResult {
    pub depositor: Address,
    /// Whether there was a deposit to return.
    pub success: bool,
}

/// The key of a record in the contract's storage.
#[derive(Clone, Copy, Debug, PartialEq, Eq, Hash, Structural)]
pub enum VaultKey {
    /// The administrator.
    Admin,
    /// The administrator-to-be of a transfer that is under way.
    PendingAdmin,
    /// Whether the vault has been initialized.
    Initialized,
    /// The configured maximum of a deposit.
    MaxDeposit,
    /// The configured maximum of a lock.
    MaxLockSecs,
    /// Who receives the penalties.
    FeeRecipient,
    /// A depositor's next deposit number.
    DepositCounter(Address),
    /// A deposit.
    Deposit(Address, u32),
    /// The list of depositors.
    Depositors,
    /// A depositor's beneficiary.
    Beneficiary(Address),
}

} // verus!
