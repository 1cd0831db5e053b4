//! Laws of single deposits: their numbers, their locks and their end.

use vstd::prelude::*;

use crate::constants::{MAX_DEPOSIT_AMOUNT, MAX_PENALTY_BPS, MIN_LOCK_DURATION_SECS};
use crate::errors::VaultError;
use crate::laws::calls::{Call, Step};
use crate::laws::calls;
use crate::model;
use crate::storage::VaultState;
use crate::types::{Address, DepositKey, VaultEntry};

verus! {

/// A deposit that was made reads back as it was made, under the number that was next.
pub proof fn law_deposit_reads_back(
    s: VaultState,
    now: u64,
    depositor: Address,
    token: Address,
    amount: i128,
    unlock_time: u64,
    penalty_bps: u32,
)
    requires
        s.next_id(depositor) < u32::MAX,
        model::deposit_fault(s, now, depositor, amount, unlock_time, penalty_bps) is None,
    ensures
        ({
            let t = (Call::Deposit { depositor, token, amount, unlock_time, penalty_bps }).after(
                s,
                now,
            );
            &&& t.deposit(depositor, s.next_id(depositor)) == Some(
                VaultEntry { token, amount, unlock_time, penalty_bps, beneficiary: None },
            )
            &&& t.next_id(depositor) == s.next_id(depositor) + 1
            &&& t.depositors.contains(depositor)
        }),
{
    let t = (Call::Deposit { depositor, token, amount, unlock_time, penalty_bps }).after(s, now);
    if !s.depositors.contains(depositor) {
        assert(t.depositors[t.depositors.len() - 1] == depositor);
    }
}

/// No call lowers a depositor's next deposit number.
pub proof fn law_numbers_only_grow(s: VaultState, now: u64, call: Call, depositor: Address)
    requires
        call.within_limits(s, now),
    ensures
        s.next_id(depositor) <= call.after(s, now).next_id(depositor),
{
}

/// How many deposits of `depositor` are accepted in the course of `steps`.
pub open spec fn accepted_deposits(s: VaultState, steps: Seq<Step>, depositor: Address) -> nat
    decreases steps.len(),
{
    if steps.len() == 0 {
        0
    } else {
        let step = steps.last();
        let earlier = accepted_deposits(s, steps.drop_last(), depositor);
        if step.call is Deposit && step.call.caller() == depositor && step.call.fault(
            calls::run(s, steps.drop_last()),
            step.now,
        ) is None {
            earlier + 1
        } else {
            earlier
        }
    }
}

/// A depositor's next number grows by one with every deposit of the depositor that is accepted,
/// and not otherwise; in a new vault it is the count of these deposits.
pub proof fn law_numbers_count_the_deposits(s: VaultState, steps: Seq<Step>, depositor: Address)
    requires
        calls::runs_within_limits(s, steps),
    ensures
        calls::run(s, steps).next_id(depositor) == s.next_id(depositor) + accepted_deposits(
            s,
            steps,
            depositor,
        ),
        s == VaultState::empty() ==> calls::run(s, steps).next_id(depositor) == accepted_deposits(
            s,
            steps,
            depositor,
        ),
    decreases steps.len(),
{
    if steps.len() > 0 {
        law_numbers_count_the_deposits(s, steps.drop_last(), depositor);
    }
}

/// A deposit that is there before and after a call keeps its token and its penalty rate, and
/// neither its amount nor its unlock time goes down.
pub proof fn law_active_deposit_only_grows(s: VaultState, now: u64, call: Call, key: DepositKey)
    requires
        call.within_limits(s, now),
        s.deposits.contains_key(key),
        call.after(s, now).deposits.contains_key(key),
    ensures
        ({
            let before = s.deposits[key];
            let after = call.after(s, now).deposits[key];
            &&& after.token == before.token
            &&& after.penalty_bps == before.penalty_bps
            &&& after.beneficiary == before.beneficiary
            &&& after.amount >= before.amount
            &&& after.unlock_time >= before.unlock_time
        }),
{
}

/// The limits hold for whatever a call writes: an amount that is new is within the maximum of a
/// deposit and positive, and an unlock time that is new is within the maximum of a lock.
pub proof fn law_limits_are_enforced(s: VaultState, now: u64, call: Call, key: DepositKey)
    requires
        call.after(s, now).deposits.contains_key(key),
    ensures
        ({
            let after = call.after(s, now).deposits[key];
            let fresh = !s.deposits.contains_key(key);
            &&& fresh ==> after.amount > 0 && after.unlock_time >= now + MIN_LOCK_DURATION_SECS
                && after.penalty_bps <= MAX_PENALTY_BPS
            &&& fresh || after.amount != s.deposits[key].amount ==> after.amount
                <= model::max_deposit(s)
            &&& fresh || after.unlock_time != s.deposits[key].unlock_time ==> after.unlock_time
                <= now + model::max_lock(s)
        }),
{
}

/// Whether `call` is made to end the deposit under `key` early: by its depositor, who pays
/// the penalty, or by the administrator.
pub open spec fn ends_early(call: Call, s: VaultState, key: DepositKey) -> bool {
    match call {
        Call::CancelDeposit { depositor, deposit_id } => key == (DepositKey {
            depositor,
            deposit_id,
        }),
        Call::EmergencyWithdraw { admin, depositor, deposit_id } => s.admin == Some(admin) && key
            == (DepositKey { depositor, deposit_id }),
        Call::BatchEmergencyWithdraw { admin, depositors } => s.admin == Some(admin)
            && depositors.contains(key.depositor) && key.deposit_id == model::batch_id(),
        _ => false,
    }
}

/// Before its unlock time a deposit ends only by being cancelled by its depositor or
/// returned by the administrator.
pub proof fn law_lock_holds(s: VaultState, now: u64, call: Call, key: DepositKey)
    requires
        s.deposits.contains_key(key),
        now < s.deposits[key].unlock_time,
        !ends_early(call, s, key),
    ensures
        call.after(s, now).deposits.contains_key(key),
{
}

/// From now on until its unlock time, whatever calls are made, a deposit stays active with
/// no less locked for no shorter, as long as nobody ends it early.
pub proof fn law_lock_holds_over_time(s: VaultState, steps: Seq<Step>, key: DepositKey)
    requires
        calls::runs_within_limits(s, steps),
        s.deposits.contains_key(key),
        forall|i: int|
            0 <= i < steps.len() ==> (#[trigger] steps[i]).now < s.deposits[key].unlock_time
                && !ends_early(steps[i].call, calls::run(s, steps.take(i)), key),
    ensures
        calls::run(s, steps).deposits.contains_key(key),
        calls::run(s, steps).deposits[key].token == s.deposits[key].token,
        calls::run(s, steps).deposits[key].amount >= s.deposits[key].amount,
        calls::run(s, steps).deposits[key].unlock_time >= s.deposits[key].unlock_time,
    decreases steps.len(),
{
    if steps.len() > 0 {
        let init = steps.drop_last();
        let step = steps.last();
        assert forall|i: int| 0 <= i < init.len() implies (#[trigger] init[i]).now
            < s.deposits[key].unlock_time && !ends_early(
            init[i].call,
            calls::run(s, init.take(i)),
            key,
        ) by {
            assert(init[i] == steps[i]);
            assert(init.take(i) =~= steps.take(i));
        }
        law_lock_holds_over_time(s, init, key);
        let before = calls::run(s, init);
        assert(steps[steps.len() - 1] == step);
        assert(steps.take(steps.len() - 1) =~= init);
        law_lock_holds(before, step.now, step.call, key);
        law_active_deposit_only_grows(before, step.now, step.call, key);
    }
}

/// A deposit that is no longer there does not come back: its number was used, and no call
/// uses it again.
pub proof fn law_ended_deposit_stays_ended(
    s: VaultState,
    now: u64,
    call: Call,
    depositor: Address,
    deposit_id: u32,
)
    requires
        call.within_limits(s, now),
        s.deposit(depositor, deposit_id) is None,
        deposit_id < s.next_id(depositor),
    ensures
        call.after(s, now).deposit(depositor, deposit_id) is None,
        deposit_id < call.after(s, now).next_id(depositor),
{
    law_numbers_only_grow(s, now, call, depositor);
}

/// A deposit that is no longer there does not come back, whatever calls are made.
pub proof fn law_ended_deposit_stays_ended_over_time(
    s: VaultState,
    steps: Seq<Step>,
    depositor: Address,
    deposit_id: u32,
)
    requires
        calls::runs_within_limits(s, steps),
        s.deposit(depositor, deposit_id) is None,
        deposit_id < s.next_id(depositor),
    ensures
        calls::run(s, steps).deposit(depositor, deposit_id) is None,
        deposit_id < calls::run(s, steps).next_id(depositor),
    decreases steps.len(),
{
    if steps.len() > 0 {
        law_ended_deposit_stays_ended_over_time(s, steps.drop_last(), depositor, deposit_id);
        law_ended_deposit_stays_ended(
            calls::run(s, steps.drop_last()),
            steps.last().now,
            steps.last().call,
            depositor,
            deposit_id,
        );
    }
}

/// Whether `call` pays out the deposit of `depositor` with the number `deposit_id`, if it is
/// not rejected.
pub open spec fn pays_out(call: Call, s: VaultState, depositor: Address, deposit_id: u32) -> bool {
    s.deposit(depositor, deposit_id) is Some && match call {
        Call::CancelDeposit { depositor: d, deposit_id: id } => d == depositor && id == deposit_id,
        Call::Withdraw { depositor: d, deposit_id: id } => d == depositor && id == deposit_id,
        Call::EmergencyWithdraw { depositor: d, deposit_id: id, .. } => d == depositor && id
            == deposit_id,
        Call::BatchEmergencyWithdraw { depositors, .. } => depositors.contains(depositor)
            && deposit_id == model::batch_id(),
        _ => false,
    }
}

/// No deposit is paid out twice: after any payout of it, `withdraw`, `cancel_deposit` and the
/// administrator's `emergency_withdraw` all answer `NoDepositFound`, an `emergency_withdraw` of
/// anybody else is rejected as well, and a batch passes the deposit over.
pub proof fn law_no_second_payout(
    s: VaultState,
    now: u64,
    later: u64,
    call: Call,
    admin: Address,
    depositor: Address,
    deposit_id: u32,
)
    requires
        pays_out(call, s, depositor, deposit_id),
        call.fault(s, now) is None,
    ensures
        ({
            let t = call.after(s, now);
            &&& t.deposit(depositor, deposit_id) is None
            &&& model::withdraw_fault(t, later, depositor, deposit_id) == Some(
                VaultError::NoDepositFound,
            )
            &&& model::cancel_deposit_fault(t, later, depositor, deposit_id) == Some(
                VaultError::NoDepositFound,
            )
            &&& model::emergency_withdraw_fault(t, admin, depositor, deposit_id) is Some
            &&& s.admin == Some(admin) ==> model::emergency_withdraw_fault(
                t,
                admin,
                depositor,
                deposit_id,
            ) == Some(VaultError::NoDepositFound)
            &&& deposit_id == model::batch_id() ==> forall|named: Seq<Address>|
                !#[trigger] model::batch_returns(t, named, depositor)
        }),
{
}

/// At any time exactly one of `withdraw` and `cancel_deposit` is open to the owner of an
/// active deposit: `cancel_deposit` before the unlock time, `withdraw` from then on. The
/// other one answers `FundsStillLocked`.
pub proof fn law_withdraw_or_cancel(s: VaultState, now: u64, depositor: Address, deposit_id: u32)
    requires
        s.deposit(depositor, deposit_id) is Some,
    ensures
        ({
            let withdraw = model::withdraw_fault(s, now, depositor, deposit_id);
            let cancel = model::cancel_deposit_fault(s, now, depositor, deposit_id);
            if now < s.deposit(depositor, deposit_id).unwrap().unlock_time {
                withdraw == Some(VaultError::FundsStillLocked) && cancel is None
            } else {
                withdraw is None && cancel == Some(VaultError::FundsStillLocked)
            }
        }),
{
}

/// `time_remaining` is zero exactly when `withdraw` is no longer, or not at all, a matter of
/// waiting: the deposit can be withdrawn, or there is none.
pub proof fn law_time_remaining_tells_when(
    s: VaultState,
    now: u64,
    depositor: Address,
    deposit_id: u32,
)
    ensures
        model::time_remaining(s, now, depositor, deposit_id) >= 0,
        model::time_remaining(s, now, depositor, deposit_id) > 0 <==> model::withdraw_fault(
            s,
            now,
            depositor,
            deposit_id,
        ) == Some(VaultError::FundsStillLocked),
        forall|later: u64|
            s.deposit(depositor, deposit_id) is Some && later >= now + model::time_remaining(
                s,
                now,
                depositor,
                deposit_id,
            ) ==> #[trigger] model::withdraw_fault(s, later, depositor, deposit_id) is None,
{
}

/// A renewal without a top-up, to a later time, has the same effect on the records as an
/// extension of the lock, wherever the deposit is within the maximum amount.
pub proof fn law_renewal_without_top_up_extends_the_lock(
    s: VaultState,
    now: u64,
    depositor: Address,
    deposit_id: u32,
    new_unlock_time: u64,
)
    requires
        s.deposit(depositor, deposit_id) matches Some(entry) ==> {
            &&& entry.unlock_time != new_unlock_time
            &&& entry.amount <= model::max_deposit(s)
            &&& entry.amount <= MAX_DEPOSIT_AMOUNT
        },
    ensures
        ({
            let renew = Call::RenewDeposit {
                depositor,
                deposit_id,
                additional_amount: 0,
                new_unlock_time,
            };
            let extend = Call::ExtendLock { depositor, deposit_id, new_unlock_time };
            &&& renew.fault(s, now) == extend.fault(s, now)
            &&& renew.after(s, now) == extend.after(s, now)
        }),
{
}

/// A renewed deposit never exceeds the maximum amount.
pub proof fn law_renewed_total_is_bounded(
    s: VaultState,
    now: u64,
    depositor: Address,
    deposit_id: u32,
    additional_amount: i128,
    new_unlock_time: u64,
)
    requires
        model::renew_deposit_fault(
            s,
            now,
            depositor,
            deposit_id,
            additional_amount,
            new_unlock_time,
        ) is None,
    ensures
        ({
            let t = model::renew_deposit_state(
                s,
                depositor,
                deposit_id,
                additional_amount,
                new_unlock_time,
            );
            let before = s.deposit(depositor, deposit_id).unwrap();
            let after = t.deposit(depositor, deposit_id).unwrap();
            &&& after.amount == before.amount + additional_amount
            &&& after.amount <= MAX_DEPOSIT_AMOUNT
            &&& after.amount <= model::max_deposit(s)
        }),
{
}

} // verus!
