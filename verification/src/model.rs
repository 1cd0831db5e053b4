//! What every call decides and does.
//!
//! Of each call that can change the vault this module gives three things: the
//! reason for which it is rejected, if any (`.._fault`); the records after it, if it
//! is not (`.._state`); and what it then asks of the ledger beyond the caller's
//! authorization (`.._effects`).

use vstd::prelude::*;

use crate::constants::{
    MAX_BATCH_SIZE, MAX_DEPOSIT_AMOUNT, MAX_LOCK_DURATION_SECS, MAX_PENALTY_BPS,
    MIN_LOCK_DURATION_SECS,
};
use crate::env::{Effect, Env, Transfer};
use crate::errors::VaultError;
use crate::events::Event;
use crate::storage::{BUMP_TARGET, VaultState};
use crate::storage;
use crate::types::{Address, DepositKey, VaultEntry, VaultKey, WithdrawResult};

verus! {

// ----------------------------------------------------------------
//  Calls in general
// ----------------------------------------------------------------

/// The answer to a call that has nothing to report but a fault.
pub open spec fn verdict(fault: Option<VaultError>) -> Result<(), VaultError> {
    match fault {
        None => Ok(()),
        Some(error) => Err(error),
    }
}

/// Whether `after` is what a call of `caller` makes of `before`: it asks for the
/// caller's authorization, and then either leaves the records alone, where it has a
/// fault, or changes them to `state` and asks for `effects`.
pub open spec fn answered(
    before: Env,
    after: Env,
    caller: Address,
    fault: Option<VaultError>,
    state: VaultState,
    effects: Seq<Effect>,
) -> bool {
    after.follows(
        before,
        settled(fault, before.storage@, state),
        issued(caller, fault, effects),
    )
}

/// The records after a call: `done`, or `state` unchanged where the call has a fault.
pub open spec fn settled(
    fault: Option<VaultError>,
    state: VaultState,
    done: VaultState,
) -> VaultState {
    match fault {
        None => done,
        Some(_) => state,
    }
}

/// What a call of `caller` asks for: the authorization in any case, the rest only
/// where it has no fault.
pub open spec fn issued(
    caller: Address,
    fault: Option<VaultError>,
    effects: Seq<Effect>,
) -> Seq<Effect> {
    match fault {
        None => seq![Effect::RequireAuth(caller)] + effects,
        Some(_) => seq![Effect::RequireAuth(caller)],
    }
}

/// The maximum of a deposit.
pub open spec fn max_deposit(s: VaultState) -> i128 {
    match s.max_deposit {
        Some(max) => max,
        None => MAX_DEPOSIT_AMOUNT,
    }
}

/// The maximum of a lock, in seconds.
pub open spec fn max_lock(s: VaultState) -> u64 {
    match s.max_lock_secs {
        Some(max) => max,
        None => MAX_LOCK_DURATION_SECS,
    }
}

/// The one effect, or none.
pub open spec fn only_if(condition: bool, effect: Effect) -> Seq<Effect> {
    if condition {
        seq![effect]
    } else {
        Seq::empty()
    }
}

// ----------------------------------------------------------------
//  Initialization
// ----------------------------------------------------------------

pub open spec fn initialize_fault(
    s: VaultState,
    max_deposit: Option<i128>,
    max_lock_secs: Option<u64>,
) -> Option<VaultError> {
    if s.initialized {
        Some(VaultError::AlreadyInitialized)
    } else if max_deposit matches Some(max) && max <= 0 {
        Some(VaultError::InvalidAmount)
    } else if max_lock_secs == Some(0u64) {
        Some(VaultError::LockDurationTooLong)
    } else {
        None
    }
}

pub open spec fn initialize_state(
    s: VaultState,
    admin: Address,
    max_deposit: Option<i128>,
    max_lock_secs: Option<u64>,
) -> VaultState {
    VaultState {
        admin: Some(admin),
        initialized: true,
        max_deposit: if max_deposit is Some { max_deposit } else { s.max_deposit },
        max_lock_secs: if max_lock_secs is Some { max_lock_secs } else { s.max_lock_secs },
        ..s
    }
}

pub open spec fn initialize_effects(
    max_deposit: Option<i128>,
    max_lock_secs: Option<u64>,
) -> Seq<Effect> {
    seq![Effect::Store(VaultKey::Admin), Effect::Store(VaultKey::Initialized)]
        + only_if(max_deposit is Some, Effect::Store(VaultKey::MaxDeposit))
        + only_if(max_lock_secs is Some, Effect::Store(VaultKey::MaxLockSecs))
}

// ----------------------------------------------------------------
//  Making and prolonging deposits
// ----------------------------------------------------------------

pub open spec fn deposit_fault(
    s: VaultState,
    now: u64,
    depositor: Address,
    amount: i128,
    unlock_time: u64,
    penalty_bps: u32,
) -> Option<VaultError> {
    if amount <= 0 {
        Some(VaultError::InvalidAmount)
    } else if amount > max_deposit(s) {
        Some(VaultError::AmountTooLarge)
    } else if penalty_bps > MAX_PENALTY_BPS {
        Some(VaultError::InvalidPenaltyBps)
    } else if unlock_time <= now {
        Some(VaultError::UnlockTimeNotInFuture)
    } else if unlock_time > now + max_lock(s) {
        Some(VaultError::LockDurationTooLong)
    } else if unlock_time < now + MIN_LOCK_DURATION_SECS {
        Some(VaultError::LockDurationTooShort)
    } else if s.deposit(depositor, s.next_id(depositor)) is Some {
        Some(VaultError::DepositAlreadyExists)
    } else {
        None
    }
}

/// The deposit is written under the depositor's next number, which is used up, and
/// the depositor is listed.
pub open spec fn deposit_state(
    s: VaultState,
    depositor: Address,
    token: Address,
    amount: i128,
    unlock_time: u64,
    penalty_bps: u32,
) -> VaultState {
    let id = s.next_id(depositor);
    let entry = VaultEntry { token, amount, unlock_time, penalty_bps, beneficiary: None };
    s.with_next_id(depositor, (id + 1) as u32).with_deposit(depositor, id, entry).with_depositor(
        depositor,
    )
}

pub open spec fn deposit_effects(
    s: VaultState,
    contract: Address,
    depositor: Address,
    token: Address,
    amount: i128,
    unlock_time: u64,
) -> Seq<Effect> {
    seq![
        Effect::Store(VaultKey::DepositCounter(depositor)),
        Effect::Transfer(Transfer { token, from: depositor, to: contract, amount }),
        Effect::Store(VaultKey::Deposit(depositor, s.next_id(depositor))),
        Effect::KeepAlive(VaultKey::Deposit(depositor, s.next_id(depositor)), BUMP_TARGET),
        Effect::Store(VaultKey::Depositors),
        Effect::Publish(Event::Deposit { depositor, token, amount, unlock_time }),
    ]
}

/// The total of a renewed deposit may exceed neither the maximum of the vault nor
/// `MAX_DEPOSIT_AMOUNT`.
pub open spec fn renew_deposit_fault(
    s: VaultState,
    now: u64,
    depositor: Address,
    deposit_id: u32,
    additional_amount: i128,
    new_unlock_time: u64,
) -> Option<VaultError> {
    if additional_amount < 0 {
        Some(VaultError::InvalidAmount)
    } else {
        match s.deposit(depositor, deposit_id) {
            None => Some(VaultError::NoDepositFound),
            Some(entry) => if new_unlock_time < entry.unlock_time {
                Some(VaultError::LockWouldNotIncrease)
            } else if new_unlock_time > now + max_lock(s) {
                Some(VaultError::LockDurationTooLong)
            } else if entry.amount + additional_amount > max_deposit(s) || entry.amount
                + additional_amount > MAX_DEPOSIT_AMOUNT {
                Some(VaultError::AmountTooLarge)
            } else {
                None
            },
        }
    }
}

/// A deposit after it was topped up by `additional_amount` and locked until
/// `new_unlock_time`.
pub open spec fn renewed(
    entry: VaultEntry,
    additional_amount: i128,
    new_unlock_time: u64,
) -> VaultEntry {
    VaultEntry {
        amount: (entry.amount + additional_amount) as i128,
        unlock_time: new_unlock_time,
        ..entry
    }
}

pub open spec fn renew_deposit_state(
    s: VaultState,
    depositor: Address,
    deposit_id: u32,
    additional_amount: i128,
    new_unlock_time: u64,
) -> VaultState {
    let entry = s.deposit(depositor, deposit_id).unwrap();
    s.with_deposit(depositor, deposit_id, renewed(entry, additional_amount, new_unlock_time))
}

pub open spec fn renew_deposit_effects(
    s: VaultState,
    contract: Address,
    depositor: Address,
    deposit_id: u32,
    additional_amount: i128,
    new_unlock_time: u64,
) -> Seq<Effect> {
    let entry = s.deposit(depositor, deposit_id).unwrap();
    only_if(
        additional_amount > 0,
        Effect::Transfer(
            Transfer {
                token: entry.token,
                from: depositor,
                to: contract,
                amount: additional_amount,
            },
        ),
    ) + seq![
        Effect::Store(VaultKey::Deposit(depositor, deposit_id)),
        Effect::KeepAlive(VaultKey::Deposit(depositor, deposit_id), BUMP_TARGET),
        Effect::Publish(
            Event::DepositRenewed {
                depositor,
                token: entry.token,
                amount: renewed(entry, additional_amount, new_unlock_time).amount,
                unlock_time: new_unlock_time,
            },
        ),
    ]
}

pub open spec fn extend_lock_fault(
    s: VaultState,
    now: u64,
    depositor: Address,
    deposit_id: u32,
    new_unlock_time: u64,
) -> Option<VaultError> {
    match s.deposit(depositor, deposit_id) {
        None => Some(VaultError::NoDepositFound),
        Some(entry) => if new_unlock_time <= entry.unlock_time {
            Some(VaultError::LockWouldNotIncrease)
        } else if new_unlock_time > now + max_lock(s) {
            Some(VaultError::LockDurationTooLong)
        } else {
            None
        },
    }
}

pub open spec fn extend_lock_state(
    s: VaultState,
    depositor: Address,
    deposit_id: u32,
    new_unlock_time: u64,
) -> VaultState {
    let entry = s.deposit(depositor, deposit_id).unwrap();
    s.with_deposit(
        depositor,
        deposit_id,
        VaultEntry { unlock_time: new_unlock_time, ..entry },
    )
}

pub open spec fn extend_lock_effects(
    s: VaultState,
    depositor: Address,
    deposit_id: u32,
    new_unlock_time: u64,
) -> Seq<Effect> {
    seq![
        Effect::Store(VaultKey::Deposit(depositor, deposit_id)),
        Effect::KeepAlive(VaultKey::Deposit(depositor, deposit_id), BUMP_TARGET),
        Effect::Publish(
            Event::LockExtended {
                depositor,
                deposit_id,
                old_unlock_time: s.deposit(depositor, deposit_id).unwrap().unlock_time,
                new_unlock_time,
            },
        ),
    ]
}

// ----------------------------------------------------------------
//  Paying deposits out
// ----------------------------------------------------------------

/// The records after a deposit was paid out: the deposit is gone, its depositor is no
/// longer listed and no longer has a beneficiary.
pub open spec fn closed_state(s: VaultState, depositor: Address, deposit_id: u32) -> VaultState {
    s.without_deposit(depositor, deposit_id).without_depositor(depositor).without_beneficiary(
        depositor,
    )
}

/// The storage writes that close a deposit.
pub open spec fn closing_stores(depositor: Address, deposit_id: u32) -> Seq<Effect> {
    seq![
        Effect::Store(VaultKey::Deposit(depositor, deposit_id)),
        Effect::Store(VaultKey::Depositors),
        Effect::Store(VaultKey::Beneficiary(depositor)),
    ]
}

/// The part of a deposit that leaving early costs, rounded down.
pub open spec fn penalty(entry: VaultEntry) -> int {
    (entry.amount * entry.penalty_bps) / 10_000
}

/// Whether the penalty of a deposit can be computed without overflow. An amount of no more
/// than a ten-thousandth of what an `i128` holds is enough, whatever the rate.
pub open spec fn penalty_computable(entry: VaultEntry) -> bool {
    &&& 0 <= entry.amount
    &&& {
        ||| entry.amount <= i128::MAX / 10_000 && entry.penalty_bps <= MAX_PENALTY_BPS
        ||| entry.amount * entry.penalty_bps <= i128::MAX
    }
}

/// The penalty can be computed just where the product of amount and rate fits.
pub proof fn lemma_penalty_computable(entry: VaultEntry)
    requires
        0 <= entry.amount,
    ensures
        penalty_computable(entry) <==> entry.amount * entry.penalty_bps <= i128::MAX,
        0 <= entry.amount * entry.penalty_bps,
{
    assert(0 <= entry.amount * entry.penalty_bps) by (nonlinear_arith)
        requires
            0 <= entry.amount,
    ;
    if entry.penalty_bps <= MAX_PENALTY_BPS {
        assert(entry.amount * entry.penalty_bps <= entry.amount * 10_000) by (nonlinear_arith)
            requires
                0 <= entry.amount,
                entry.penalty_bps <= 10_000,
        ;
    }
}

pub open spec fn cancel_deposit_fault(
    s: VaultState,
    now: u64,
    depositor: Address,
    deposit_id: u32,
) -> Option<VaultError> {
    match s.deposit(depositor, deposit_id) {
        None => Some(VaultError::NoDepositFound),
        Some(entry) => if now >= entry.unlock_time {
            Some(VaultError::FundsStillLocked)
        } else {
            None
        },
    }
}

/// Who receives the penalty: the fee recipient, or the depositor where there is none.
pub open spec fn penalty_recipient(s: VaultState, depositor: Address) -> Address {
    match s.fee_recipient {
        Some(recipient) => recipient,
        None => depositor,
    }
}

pub open spec fn cancel_deposit_effects(
    s: VaultState,
    contract: Address,
    depositor: Address,
    deposit_id: u32,
) -> Seq<Effect> {
    let entry = s.deposit(depositor, deposit_id).unwrap();
    let fee = penalty(entry);
    let refund = entry.amount - fee;
    closing_stores(depositor, deposit_id) + only_if(
        fee > 0,
        Effect::Transfer(
            Transfer {
                token: entry.token,
                from: contract,
                to: penalty_recipient(s, depositor),
                amount: fee as i128,
            },
        ),
    ) + only_if(
        refund > 0,
        Effect::Transfer(
            Transfer {
                token: entry.token,
                from: contract,
                to: depositor,
                amount: refund as i128,
            },
        ),
    ) + seq![
        Effect::Publish(
            Event::DepositCancelled {
                depositor,
                token: entry.token,
                amount: entry.amount,
                penalty: fee as i128,
            },
        ),
    ]
}

pub open spec fn withdraw_fault(
    s: VaultState,
    now: u64,
    depositor: Address,
    deposit_id: u32,
) -> Option<VaultError> {
    match s.deposit(depositor, deposit_id) {
        None => Some(VaultError::NoDepositFound),
        Some(entry) => if now < entry.unlock_time {
            Some(VaultError::FundsStillLocked)
        } else {
            None
        },
    }
}

/// Who receives a withdrawn deposit: the beneficiary, or the depositor where there is
/// none.
pub open spec fn withdraw_recipient(s: VaultState, depositor: Address) -> Address {
    match s.beneficiaries.get(depositor) {
        Some(beneficiary) => beneficiary,
        None => depositor,
    }
}

pub open spec fn withdraw_effects(
    s: VaultState,
    contract: Address,
    depositor: Address,
    deposit_id: u32,
) -> Seq<Effect> {
    let entry = s.deposit(depositor, deposit_id).unwrap();
    closing_stores(depositor, deposit_id) + seq![
        Effect::Transfer(
            Transfer {
                token: entry.token,
                from: contract,
                to: withdraw_recipient(s, depositor),
                amount: entry.amount,
            },
        ),
        Effect::Publish(
            Event::Withdraw { depositor, token: entry.token, amount: entry.amount },
        ),
    ]
}

pub open spec fn emergency_withdraw_fault(
    s: VaultState,
    admin: Address,
    depositor: Address,
    deposit_id: u32,
) -> Option<VaultError> {
    if s.admin != Some(admin) {
        Some(VaultError::Unauthorized)
    } else if s.deposit(depositor, deposit_id) is None {
        Some(VaultError::NoDepositFound)
    } else {
        None
    }
}

pub open spec fn emergency_withdraw_effects(
    s: VaultState,
    contract: Address,
    admin: Address,
    depositor: Address,
    deposit_id: u32,
) -> Seq<Effect> {
    let entry = s.deposit(depositor, deposit_id).unwrap();
    closing_stores(depositor, deposit_id) + seq![
        Effect::Transfer(
            Transfer {
                token: entry.token,
                from: contract,
                to: depositor,
                amount: entry.amount,
            },
        ),
        Effect::Publish(
            Event::EmergencyWithdraw {
                admin,
                depositor,
                token: entry.token,
                amount: entry.amount,
                unlock_time: entry.unlock_time,
            },
        ),
    ]
}

pub open spec fn set_beneficiary_effects(depositor: Address) -> Seq<Effect> {
    seq![Effect::Store(VaultKey::Beneficiary(depositor))]
}

/// How long a deposit stays locked.
pub open spec fn time_remaining(
    s: VaultState,
    now: u64,
    depositor: Address,
    deposit_id: u32,
) -> int {
    match s.deposit(depositor, deposit_id) {
        None => 0,
        Some(entry) => if entry.unlock_time > now {
            entry.unlock_time - now
        } else {
            0
        },
    }
}

// ----------------------------------------------------------------
//  Batches
// ----------------------------------------------------------------

/// The number of the deposit that a batch returns.
pub open spec fn batch_id() -> u32 {
    0
}

pub open spec fn batch_emergency_withdraw_fault(
    s: VaultState,
    admin: Address,
    depositors: Seq<Address>,
) -> Option<VaultError> {
    if s.admin != Some(admin) {
        Some(VaultError::Unauthorized)
    } else if depositors.len() > MAX_BATCH_SIZE {
        Some(VaultError::BatchTooLarge)
    } else {
        None
    }
}

/// Whether a batch that names `depositors` returns the first deposit of `depositor`.
pub open spec fn batch_returns(s: VaultState, depositors: Seq<Address>, depositor: Address) -> bool {
    depositors.contains(depositor) && s.deposit(depositor, batch_id()) is Some
}

/// Holds of the addresses whose first deposits the batch does not return.
pub open spec fn batch_spares(s: VaultState, depositors: Seq<Address>) -> spec_fn(Address) -> bool {
    |depositor: Address| !batch_returns(s, depositors, depositor)
}

/// The records after the batch: the first deposits of the depositors that it names are gone, and
/// those whose deposits it returned are no longer listed and no longer have a beneficiary.
pub open spec fn batch_emergency_withdraw_state(
    s: VaultState,
    depositors: Seq<Address>,
) -> VaultState {
    VaultState {
        deposits: s.deposits.remove_keys(
            Set::new(
                |key: DepositKey|
                    key.deposit_id == batch_id() && depositors.contains(key.depositor),
            ),
        ),
        depositors: s.depositors.filter(batch_spares(s, depositors)),
        beneficiaries: s.beneficiaries.remove_keys(
            Set::new(|depositor: Address| batch_returns(s, depositors, depositor)),
        ),
        ..s
    }
}

/// Whether the batch finds a deposit to return when it comes to position `i`: there was
/// one to begin with, and the depositor has not been named before.
pub open spec fn batch_hit(s: VaultState, depositors: Seq<Address>, i: int) -> bool {
    s.deposit(depositors[i], batch_id()) is Some && !depositors.take(i).contains(depositors[i])
}

pub open spec fn batch_emergency_withdraw_results(
    s: VaultState,
    depositors: Seq<Address>,
) -> Seq<WithdrawResult> {
    Seq::new(
        depositors.len(),
        |i: int|
            WithdrawResult { depositor: depositors[i], success: batch_hit(s, depositors, i) },
    )
}

/// What the batch asks for when it returns the first deposit of `depositor`.
pub open spec fn batch_item_effects(
    s: VaultState,
    contract: Address,
    admin: Address,
    depositor: Address,
) -> Seq<Effect> {
    let entry = s.deposit(depositor, batch_id()).unwrap();
    closing_stores(depositor, batch_id()) + seq![
        Effect::Transfer(
            Transfer {
                token: entry.token,
                from: contract,
                to: depositor,
                amount: entry.amount,
            },
        ),
        Effect::Publish(
            Event::BatchEmergencyWithdrawItem {
                admin,
                depositor,
                token: entry.token,
                amount: entry.amount,
                unlock_time: entry.unlock_time,
            },
        ),
    ]
}

/// What the batch asks for: in order, the effects of every position at which it finds a
/// deposit.
pub open spec fn batch_emergency_withdraw_effects(
    s: VaultState,
    contract: Address,
    admin: Address,
    depositors: Seq<Address>,
) -> Seq<Effect>
    decreases depositors.len(),
{
    if depositors.len() == 0 {
        Seq::empty()
    } else {
        let i = depositors.len() - 1;
        batch_emergency_withdraw_effects(s, contract, admin, depositors.drop_last()) + if batch_hit(
            s,
            depositors,
            i,
        ) {
            batch_item_effects(s, contract, admin, depositors[i])
        } else {
            Seq::empty()
        }
    }
}

/// A batch that names nobody changes nothing.
pub proof fn lemma_batch_of_nobody(s: VaultState)
    ensures
        batch_emergency_withdraw_state(s, Seq::empty()) == s,
{
    let t = batch_emergency_withdraw_state(s, Seq::empty());
    lemma_filter_all(s.depositors, batch_spares(s, Seq::empty()));
    assert(t.deposits =~= s.deposits);
    assert(t.beneficiaries =~= s.beneficiaries);
}

/// A batch that names one more depositor goes on from where the shorter one ended: it closes that
/// depositor's first deposit, if there still is one.
pub proof fn lemma_batch_step(s: VaultState, depositors: Seq<Address>, depositor: Address)
    ensures
        ({
            let before = batch_emergency_withdraw_state(s, depositors);
            batch_emergency_withdraw_state(s, depositors.push(depositor)) == if before.deposit(
                depositor,
                batch_id(),
            ) is Some {
                closed_state(before, depositor, batch_id())
            } else {
                before
            }
        }),
{
    let before = batch_emergency_withdraw_state(s, depositors);
    let longer = depositors.push(depositor);
    let after = batch_emergency_withdraw_state(s, longer);
    assert forall|a: Address| #[trigger]
        longer.contains(a) <==> depositors.contains(a) || a == depositor by {
        lemma_contains_push(depositors, depositor, a);
    }
    if before.deposit(depositor, batch_id()) is Some {
        lemma_filter_twice(
            s.depositors,
            batch_spares(s, depositors),
            storage::other_than(depositor),
            batch_spares(s, longer),
        );
        assert(after =~= closed_state(before, depositor, batch_id()));
    } else {
        assert(batch_spares(s, longer) =~= batch_spares(s, depositors));
        assert(after =~= before);
    }
}

/// What a longer sequence contains.
proof fn lemma_contains_push(seq: Seq<Address>, last: Address, a: Address)
    ensures
        seq.push(last).contains(a) <==> seq.contains(a) || a == last,
{
    let longer = seq.push(last);
    if seq.contains(a) {
        let i = seq.index_of(a);
        assert(longer[i] == a);
    }
    if a == last {
        assert(longer[seq.len() as int] == a);
    }
    if longer.contains(a) && a != last {
        let i = longer.index_of(a);
        assert(seq[i] == a);
    }
}

/// A filter that lets everything pass.
proof fn lemma_filter_all(list: Seq<Address>, p: spec_fn(Address) -> bool)
    requires
        forall|a: Address| #[trigger] p(a),
    ensures
        list.filter(p) == list,
    decreases list.len(),
{
    reveal(Seq::filter);
    if list.len() > 0 {
        lemma_filter_all(list.drop_last(), p);
        assert(p(list.last()));
        assert(list.drop_last().push(list.last()) =~= list);
    }
}

/// Two filters, one after the other.
proof fn lemma_filter_twice(
    list: Seq<Address>,
    p: spec_fn(Address) -> bool,
    q: spec_fn(Address) -> bool,
    both: spec_fn(Address) -> bool,
)
    requires
        forall|a: Address| #[trigger] both(a) == (p(a) && q(a)),
    ensures
        list.filter(p).filter(q) == list.filter(both),
    decreases list.len(),
{
    reveal(Seq::filter);
    if list.len() > 0 {
        lemma_filter_twice(list.drop_last(), p, q, both);
        list.drop_last().filter(p).lemma_filter_push(list.last(), q);
        assert(both(list.last()) == (p(list.last()) && q(list.last())));
    }
}

// ----------------------------------------------------------------
//  The administrator
// ----------------------------------------------------------------

pub open spec fn transfer_admin_fault(
    s: VaultState,
    admin: Address,
    new_admin: Address,
) -> Option<VaultError> {
    if s.admin != Some(admin) {
        Some(VaultError::Unauthorized)
    } else if new_admin == admin {
        Some(VaultError::InvalidAdmin)
    } else {
        None
    }
}

pub open spec fn transfer_admin_effects(admin: Address, new_admin: Address) -> Seq<Effect> {
    seq![
        Effect::Store(VaultKey::PendingAdmin),
        Effect::Publish(Event::AdminTransferInitiated { admin, new_admin }),
    ]
}

pub open spec fn accept_admin_fault(s: VaultState, new_admin: Address) -> Option<VaultError> {
    if s.pending_admin != Some(new_admin) {
        Some(VaultError::Unauthorized)
    } else {
        None
    }
}

pub open spec fn accept_admin_effects(new_admin: Address) -> Seq<Effect> {
    seq![
        Effect::Store(VaultKey::Admin),
        Effect::Store(VaultKey::PendingAdmin),
        Effect::Publish(Event::AdminTransferAccepted { new_admin }),
    ]
}

/// The fault of a call that only the administrator may make.
pub open spec fn admin_fault(s: VaultState, admin: Address) -> Option<VaultError> {
    if s.admin != Some(admin) {
        Some(VaultError::Unauthorized)
    } else {
        None
    }
}

pub open spec fn cancel_transfer_admin_effects(admin: Address) -> Seq<Effect> {
    seq![
        Effect::Store(VaultKey::PendingAdmin),
        Effect::Publish(Event::AdminTransferCancelled { admin }),
    ]
}

pub open spec fn renounce_admin_effects(admin: Address) -> Seq<Effect> {
    seq![
        Effect::Store(VaultKey::Admin),
        Effect::Store(VaultKey::PendingAdmin),
        Effect::Publish(Event::AdminRenounced { admin }),
    ]
}

} // verus!
