//! The reasons for which the vault rejects a call.

use vstd::prelude::*;

verus! {

#[derive(Clone, Copy, Debug, PartialEq, Eq, Hash, Structural)]
pub enum VaultError {
    /// The vault has been initialized before.
    AlreadyInitialized,
    /// The caller does not hold the role that the call needs.
    Unauthorized,
    /// The proposed administrator is the present one.
    InvalidAdmin,
    /// An amount is not positive, or a top-up is negative.
    InvalidAmount,
    /// An amount exceeds the maximum.
    AmountTooLarge,
    /// A penalty rate exceeds the whole.
    InvalidPenaltyBps,
    /// The unlock time of a new deposit is not after the present time.
    UnlockTimeNotInFuture,
    /// A lock would last longer than the maximum, or a maximum of zero was given.
    LockDurationTooLong,
    /// The lock of a new deposit would be shorter than the minimum.
    LockDurationTooShort,
    /// A new unlock time does not lie as far ahead as it has to.
    LockWouldNotIncrease,
    /// The identifier of a new deposit is already taken.
    DepositAlreadyExists,
    /// There is no deposit under this identifier.
    NoDepositFound,
    /// The deposit is on the wrong side of its unlock time for this call.
    FundsStillLocked,
    /// A batch names too many depositors.
    BatchTooLarge,
}

} // verus!
