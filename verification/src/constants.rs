//! Limits of the vault.

use vstd::prelude::*;

verus! {

/// The largest amount of a new deposit, unless the vault was initialized with
/// another maximum. The total of a renewed deposit is bounded by it in any case.
pub const MAX_DEPOSIT_AMOUNT: i128 = 1_000_000_000_000_000;

/// The longest lock in seconds (five years of 365 days), unless the vault was
/// initialized with another maximum.
pub const MAX_LOCK_DURATION_SECS: u64 = 157_680_000;

/// The shortest lock of a new deposit, in seconds.
pub const MIN_LOCK_DURATION_SECS: u64 = 60;

/// The largest number of depositors that one batch may name.
pub const MAX_BATCH_SIZE: u32 = 50;

/// The whole of a deposit in basis points: the largest penalty rate.
pub const MAX_PENALTY_BPS: u32 = 10_000;

} // verus!
