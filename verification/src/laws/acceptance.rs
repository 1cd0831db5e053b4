//! Laws of the answers: which calls are accepted, and what each of the others is answered.
//!
//! A call is accepted exactly where nothing speaks against it. Where several things do, the answer
//! names the first of them, in the order in which the laws list them.

use vstd::prelude::*;

use crate::constants::{
    MAX_BATCH_SIZE, MAX_DEPOSIT_AMOUNT, MAX_LOCK_DURATION_SECS, MAX_PENALTY_BPS,
    MIN_LOCK_DURATION_SECS,
};
use crate::errors::VaultError;
use crate::laws::calls::Call;
use crate::model;
use crate::storage::VaultState;
use crate::types::{Address, DepositKey};

verus! {

// ----------------------------------------------------------------
//  Limits
// ----------------------------------------------------------------

/// A limit that the vault was initialized with is the one that applies; without one the default
/// does.
pub proof fn law_limits_apply_as_configured(s: VaultState)
    ensures
        s.max_deposit matches Some(max) ==> model::max_deposit(s) == max,
        s.max_deposit is None ==> model::max_deposit(s) == MAX_DEPOSIT_AMOUNT,
        s.max_lock_secs matches Some(max) ==> model::max_lock(s) == max,
        s.max_lock_secs is None ==> model::max_lock(s) == MAX_LOCK_DURATION_SECS,
{
}

/// By default a deposit is at most a quadrillion and a lock at most five years of 365 days. A lock
/// lasts at least a minute, a penalty is at most the whole, and a batch names at most fifty.
pub proof fn law_default_limits()
    ensures
        MAX_DEPOSIT_AMOUNT == 1_000_000 * 1_000_000_000,
        MAX_LOCK_DURATION_SECS == 5 * 365 * 24 * 60 * 60,
        MIN_LOCK_DURATION_SECS == 60,
        MAX_PENALTY_BPS == 100 * 100,
        MAX_BATCH_SIZE == 50,
{
}

// ----------------------------------------------------------------
//  Initialization
// ----------------------------------------------------------------

/// An initialization is accepted exactly if it is the first and every limit that it gives is
/// positive.
pub proof fn law_when_initialize_is_accepted(
    s: VaultState,
    now: u64,
    admin: Address,
    max_deposit: Option<i128>,
    max_lock_secs: Option<u64>,
)
    ensures
        ({
            let fault = (Call::Initialize { admin, max_deposit, max_lock_secs }).fault(s, now);
            let first = !s.initialized;
            let amount_ok = max_deposit is Some ==> max_deposit.unwrap() > 0;
            let lock_ok = max_lock_secs is Some ==> max_lock_secs.unwrap() > 0;
            &&& fault is None <==> first && amount_ok && lock_ok
            &&& fault == Some(VaultError::AlreadyInitialized) <==> !first
            &&& fault == Some(VaultError::InvalidAmount) <==> first && !amount_ok
            &&& fault == Some(VaultError::LockDurationTooLong) <==> first && amount_ok && !lock_ok
        }),
{
}

// ----------------------------------------------------------------
//  Making and prolonging deposits
// ----------------------------------------------------------------

/// A deposit is accepted exactly if its amount is positive and within the maximum, its penalty is
/// at most the whole, its lock lasts neither longer than the maximum nor shorter than the minimum,
/// and the depositor's next number is free.
pub proof fn law_when_deposit_is_accepted(
    s: VaultState,
    now: u64,
    depositor: Address,
    token: Address,
    amount: i128,
    unlock_time: u64,
    penalty_bps: u32,
)
    ensures
        ({
            let call = Call::Deposit { depositor, token, amount, unlock_time, penalty_bps };
            let fault = call.fault(s, now);
            let lock = unlock_time - now;
            let next = DepositKey { depositor, deposit_id: s.next_id(depositor) };
            let positive = 0 < amount;
            let affordable = positive && amount <= model::max_deposit(s);
            let rate_ok = affordable && penalty_bps <= 10_000;
            let future = rate_ok && 0 < lock;
            let not_long = future && lock <= model::max_lock(s);
            let not_short = not_long && MIN_LOCK_DURATION_SECS <= lock;
            let free = not_short && !s.deposits.contains_key(next);
            &&& fault is None <==> free
            &&& fault == Some(VaultError::InvalidAmount) <==> !positive
            &&& fault == Some(VaultError::AmountTooLarge) <==> positive && !affordable
            &&& fault == Some(VaultError::InvalidPenaltyBps) <==> affordable && !rate_ok
            &&& fault == Some(VaultError::UnlockTimeNotInFuture) <==> rate_ok && !future
            &&& fault == Some(VaultError::LockDurationTooLong) <==> future && !not_long
            &&& fault == Some(VaultError::LockDurationTooShort) <==> not_long && !not_short
            &&& fault == Some(VaultError::DepositAlreadyExists) <==> not_short && !free
        }),
{
}

/// A renewal is accepted exactly if its top-up is not negative, the deposit is active, the new
/// unlock time lies neither before the present one nor further from now than the maximum of a
/// lock, and the total is within the maximum of the vault and `MAX_DEPOSIT_AMOUNT`.
pub proof fn law_when_renew_deposit_is_accepted(
    s: VaultState,
    now: u64,
    depositor: Address,
    deposit_id: u32,
    additional_amount: i128,
    new_unlock_time: u64,
)
    ensures
        ({
            let call = Call::RenewDeposit {
                depositor,
                deposit_id,
                additional_amount,
                new_unlock_time,
            };
            let fault = call.fault(s, now);
            let key = DepositKey { depositor, deposit_id };
            let total = s.deposits[key].amount + additional_amount;
            let not_negative = 0 <= additional_amount;
            let active = not_negative && s.deposits.contains_key(key);
            let not_before = active && s.deposits[key].unlock_time <= new_unlock_time;
            let not_long = not_before && new_unlock_time - now <= model::max_lock(s);
            let affordable = not_long && total <= model::max_deposit(s) && total
                <= MAX_DEPOSIT_AMOUNT;
            &&& fault is None <==> affordable
            &&& fault == Some(VaultError::InvalidAmount) <==> !not_negative
            &&& fault == Some(VaultError::NoDepositFound) <==> not_negative && !active
            &&& fault == Some(VaultError::LockWouldNotIncrease) <==> active && !not_before
            &&& fault == Some(VaultError::LockDurationTooLong) <==> not_before && !not_long
            &&& fault == Some(VaultError::AmountTooLarge) <==> not_long && !affordable
        }),
{
}

/// An extension is accepted exactly if the deposit is active and the new unlock time lies after
/// the present one, but no further from now than the maximum of a lock.
pub proof fn law_when_extend_lock_is_accepted(
    s: VaultState,
    now: u64,
    depositor: Address,
    deposit_id: u32,
    new_unlock_time: u64,
)
    ensures
        ({
            let fault = (Call::ExtendLock { depositor, deposit_id, new_unlock_time }).fault(s, now);
            let key = DepositKey { depositor, deposit_id };
            let active = s.deposits.contains_key(key);
            let later = active && s.deposits[key].unlock_time < new_unlock_time;
            let not_long = later && new_unlock_time - now <= model::max_lock(s);
            &&& fault is None <==> not_long
            &&& fault == Some(VaultError::NoDepositFound) <==> !active
            &&& fault == Some(VaultError::LockWouldNotIncrease) <==> active && !later
            &&& fault == Some(VaultError::LockDurationTooLong) <==> later && !not_long
        }),
{
}

// ----------------------------------------------------------------
//  Paying deposits out
// ----------------------------------------------------------------

/// A withdrawal is accepted exactly if the deposit is active and its unlock time has come.
pub proof fn law_when_withdraw_is_accepted(
    s: VaultState,
    now: u64,
    depositor: Address,
    deposit_id: u32,
)
    ensures
        ({
            let fault = (Call::Withdraw { depositor, deposit_id }).fault(s, now);
            let key = DepositKey { depositor, deposit_id };
            let active = s.deposits.contains_key(key);
            let due = active && s.deposits[key].unlock_time <= now;
            &&& fault is None <==> due
            &&& fault == Some(VaultError::NoDepositFound) <==> !active
            &&& fault == Some(VaultError::FundsStillLocked) <==> active && !due
        }),
{
}

/// A cancellation is accepted exactly if the deposit is active and its unlock time is still to
/// come.
pub proof fn law_when_cancel_deposit_is_accepted(
    s: VaultState,
    now: u64,
    depositor: Address,
    deposit_id: u32,
)
    ensures
        ({
            let fault = (Call::CancelDeposit { depositor, deposit_id }).fault(s, now);
            let key = DepositKey { depositor, deposit_id };
            let active = s.deposits.contains_key(key);
            let early = active && now < s.deposits[key].unlock_time;
            &&& fault is None <==> early
            &&& fault == Some(VaultError::NoDepositFound) <==> !active
            &&& fault == Some(VaultError::FundsStillLocked) <==> active && !early
        }),
{
}

/// An emergency withdrawal is accepted exactly if the administrator makes it and the deposit is
/// active, whatever the time.
pub proof fn law_when_emergency_withdraw_is_accepted(
    s: VaultState,
    now: u64,
    admin: Address,
    depositor: Address,
    deposit_id: u32,
)
    ensures
        ({
            let fault = (Call::EmergencyWithdraw { admin, depositor, deposit_id }).fault(s, now);
            let entitled = s.admin == Some(admin);
            let active = entitled && s.deposits.contains_key(DepositKey { depositor, deposit_id });
            &&& fault is None <==> active
            &&& fault == Some(VaultError::Unauthorized) <==> !entitled
            &&& fault == Some(VaultError::NoDepositFound) <==> entitled && !active
        }),
{
}

/// A batch is accepted exactly if the administrator makes it and it names no more than fifty,
/// whoever they are.
pub proof fn law_when_batch_emergency_withdraw_is_accepted(
    s: VaultState,
    now: u64,
    admin: Address,
    depositors: Seq<Address>,
)
    ensures
        ({
            let fault = (Call::BatchEmergencyWithdraw { admin, depositors }).fault(s, now);
            let entitled = s.admin == Some(admin);
            let short = entitled && depositors.len() <= 50;
            &&& fault is None <==> short
            &&& fault == Some(VaultError::Unauthorized) <==> !entitled
            &&& fault == Some(VaultError::BatchTooLarge) <==> entitled && !short
        }),
{
}

// ----------------------------------------------------------------
//  Beneficiaries and the administrator
// ----------------------------------------------------------------

/// Naming a beneficiary is always accepted.
pub proof fn law_set_beneficiary_is_accepted(
    s: VaultState,
    now: u64,
    depositor: Address,
    beneficiary: Address,
)
    ensures
        (Call::SetBeneficiary { depositor, beneficiary }).fault(s, now) is None,
{
}

/// A proposal is accepted exactly if the administrator makes it and proposes somebody else; an
/// acceptance exactly if the proposed address makes it; taking a proposal back and renouncing the
/// role exactly if the administrator does it.
pub proof fn law_when_calls_on_the_role_are_accepted(
    s: VaultState,
    now: u64,
    admin: Address,
    new_admin: Address,
)
    ensures
        ({
            let propose = (Call::TransferAdmin { admin, new_admin }).fault(s, now);
            let accept = (Call::AcceptAdmin { new_admin }).fault(s, now);
            let take_back = (Call::CancelTransferAdmin { admin }).fault(s, now);
            let renounce = (Call::RenounceAdmin { admin }).fault(s, now);
            let entitled = s.admin == Some(admin);
            let denied = Some(VaultError::Unauthorized);
            &&& propose is None <==> entitled && new_admin != admin
            &&& propose == denied <==> !entitled
            &&& propose == Some(VaultError::InvalidAdmin) <==> entitled && new_admin == admin
            &&& accept is None <==> s.pending_admin == Some(new_admin)
            &&& accept == denied <==> s.pending_admin != Some(new_admin)
            &&& take_back is None <==> entitled
            &&& take_back == denied <==> !entitled
            &&& renounce is None <==> entitled
            &&& renounce == denied <==> !entitled
        }),
{
}

} // verus!
