//! Laws of the money: what comes in, what is owed, what goes out.

use vstd::prelude::*;

use crate::constants::MAX_PENALTY_BPS;
use crate::env::{Effect, Transfer};
use crate::laws::calls::{Call, Step};
use crate::laws::calls;
use crate::laws::validity;
use crate::model;
use crate::storage::VaultState;
use crate::types::{Address, DepositKey, VaultEntry};

verus! {

// ----------------------------------------------------------------
//  Balances
// ----------------------------------------------------------------

/// By how much a payment changes the balance of `holder` in `token`.
pub open spec fn transfer_flow(transfer: Transfer, token: Address, holder: Address) -> int {
    (if transfer.token == token && transfer.to == holder {
        transfer.amount as int
    } else {
        0
    }) - (if transfer.token == token && transfer.from == holder {
        transfer.amount as int
    } else {
        0
    })
}

/// By how much an effect changes the balance of `holder` in `token`.
pub open spec fn effect_flow(effect: Effect, token: Address, holder: Address) -> int {
    match effect {
        Effect::Transfer(transfer) => transfer_flow(transfer, token, holder),
        _ => 0,
    }
}

/// By how much a list of effects changes the balance of `holder` in `token`.
pub open spec fn flow(effects: Seq<Effect>, token: Address, holder: Address) -> int
    decreases effects.len(),
{
    if effects.len() == 0 {
        0
    } else {
        flow(effects.drop_last(), token, holder) + effect_flow(effects.last(), token, holder)
    }
}

/// The effects of two lists, one after the other, add up.
pub proof fn lemma_flow_adds_up(a: Seq<Effect>, b: Seq<Effect>, token: Address, holder: Address)
    ensures
        flow(a + b, token, holder) == flow(a, token, holder) + flow(b, token, holder),
    decreases b.len(),
{
    if b.len() == 0 {
        assert(a + b =~= a);
    } else {
        assert((a + b).drop_last() =~= a + b.drop_last());
        lemma_flow_adds_up(a, b.drop_last(), token, holder);
    }
}

proof fn lemma_flow_of_one(effect: Effect, token: Address, holder: Address)
    ensures
        flow(seq![effect], token, holder) == effect_flow(effect, token, holder),
{
    assert(seq![effect].drop_last() =~= Seq::empty());
    reveal_with_fuel(flow, 2);
}

// ----------------------------------------------------------------
//  What the vault owes
// ----------------------------------------------------------------

/// What a deposit adds to the amount of `token` that is locked.
pub open spec fn share(entry: VaultEntry, token: Address) -> int {
    if entry.token == token {
        entry.amount as int
    } else {
        0
    }
}

/// How much of `token` is locked in `deposits` altogether.
pub open spec fn locked(deposits: Map<DepositKey, VaultEntry>, token: Address) -> int
    decreases deposits.dom().len(),
{
    if deposits.dom().finite() && deposits.dom().len() > 0 {
        let key = deposits.dom().choose();
        share(deposits[key], token) + locked(deposits.remove(key), token)
    } else {
        0
    }
}

/// Taking a deposit out lowers the total by its share.
proof fn lemma_locked_remove(
    deposits: Map<DepositKey, VaultEntry>,
    key: DepositKey,
    token: Address,
)
    requires
        deposits.dom().finite(),
        deposits.contains_key(key),
    ensures
        locked(deposits, token) == share(deposits[key], token) + locked(
            deposits.remove(key),
            token,
        ),
    decreases deposits.dom().len(),
{
    let first = deposits.dom().choose();
    assert(deposits.dom().contains(first));
    if first != key {
        lemma_locked_remove(deposits.remove(first), key, token);
        lemma_locked_remove(deposits.remove(key), first, token);
        assert(deposits.remove(first).remove(key) =~= deposits.remove(key).remove(first));
    }
}

/// Writing a deposit replaces the share of what was there by its own.
proof fn lemma_locked_insert(
    deposits: Map<DepositKey, VaultEntry>,
    key: DepositKey,
    entry: VaultEntry,
    token: Address,
)
    requires
        deposits.dom().finite(),
    ensures
        locked(deposits.insert(key, entry), token) == locked(deposits, token) + share(entry, token)
            - (if deposits.contains_key(key) {
            share(deposits[key], token)
        } else {
            0
        }),
{
    lemma_locked_remove(deposits.insert(key, entry), key, token);
    assert(deposits.insert(key, entry).remove(key) =~= deposits.remove(key));
    if deposits.contains_key(key) {
        lemma_locked_remove(deposits, key, token);
    } else {
        assert(deposits.remove(key) =~= deposits);
    }
}

// ----------------------------------------------------------------
//  Solvency
// ----------------------------------------------------------------

/// Whether the call brings money in from the vault's own address.
pub open spec fn pays_in_from(call: Call, contract: Address) -> bool {
    match call {
        Call::Deposit { depositor, .. } => depositor == contract,
        Call::RenewDeposit { depositor, .. } => depositor == contract,
        _ => false,
    }
}

/// Whether the call may pay money out to the vault's own address.
pub open spec fn pays_out_to(call: Call, s: VaultState, contract: Address) -> bool {
    match call {
        Call::CancelDeposit { depositor, .. } => depositor == contract || model::penalty_recipient(
            s,
            depositor,
        ) == contract,
        Call::Withdraw { depositor, .. } => model::withdraw_recipient(s, depositor) == contract,
        Call::EmergencyWithdraw { depositor, .. } => depositor == contract,
        Call::BatchEmergencyWithdraw { depositors, .. } => depositors.contains(contract),
        _ => false,
    }
}

/// The vault can always pay what it owes: a call never changes its balance in a token by less
/// than it changes what is locked in that token. The vault's own address has to stay out of
/// paying in, since what it pays to itself backs nothing.
pub proof fn law_calls_keep_the_vault_solvent(
    s: VaultState,
    contract: Address,
    now: u64,
    call: Call,
    token: Address,
)
    requires
        validity::valid(s),
        call.within_limits(s, now),
        !pays_in_from(call, contract),
    ensures
        flow(call.effects(s, contract, now), token, contract) >= locked(
            call.after(s, now).deposits,
            token,
        ) - locked(s.deposits, token),
        !pays_out_to(call, s, contract) ==> flow(call.effects(s, contract, now), token, contract)
            == locked(call.after(s, now).deposits, token) - locked(s.deposits, token),
{
    lemma_flow_of_one(Effect::RequireAuth(call.caller()), token, contract);
    if call.fault(s, now) is None {
        lemma_flow_adds_up(
            seq![Effect::RequireAuth(call.caller())],
            call.wanted(s, contract),
            token,
            contract,
        );
        match call {
            Call::Deposit { depositor, token: t, amount, unlock_time, penalty_bps } => {
                lemma_deposit_flow(s, contract, depositor, t, amount, unlock_time, token, contract);
                lemma_locked_insert(
                    s.deposits,
                    DepositKey { depositor, deposit_id: s.next_id(depositor) },
                    VaultEntry { token: t, amount, unlock_time, penalty_bps, beneficiary: None },
                    token,
                );
            },
            Call::RenewDeposit { depositor, deposit_id, additional_amount, new_unlock_time } => {
                let key = DepositKey { depositor, deposit_id };
                lemma_renew_flow(
                    s,
                    contract,
                    depositor,
                    deposit_id,
                    additional_amount,
                    new_unlock_time,
                    token,
                    contract,
                );
                lemma_locked_insert(
                    s.deposits,
                    key,
                    model::renewed(s.deposits[key], additional_amount, new_unlock_time),
                    token,
                );
            },
            Call::ExtendLock { depositor, deposit_id, new_unlock_time } => {
                let key = DepositKey { depositor, deposit_id };
                lemma_flow_without_transfers(call.wanted(s, contract), token, contract);
                lemma_locked_insert(
                    s.deposits,
                    key,
                    VaultEntry { unlock_time: new_unlock_time, ..s.deposits[key] },
                    token,
                );
            },
            Call::CancelDeposit { depositor, deposit_id } => {
                let key = DepositKey { depositor, deposit_id };
                assert(s.deposits.contains_key(key));
                lemma_locked_remove(s.deposits, key, token);
                lemma_cancel_flow(s, contract, depositor, deposit_id, token, contract);
            },
            Call::Withdraw { depositor, deposit_id } => {
                let key = DepositKey { depositor, deposit_id };
                assert(s.deposits.contains_key(key));
                lemma_locked_remove(s.deposits, key, token);
                lemma_withdraw_flow(s, contract, depositor, deposit_id, token, contract);
            },
            Call::EmergencyWithdraw { admin, depositor, deposit_id } => {
                let key = DepositKey { depositor, deposit_id };
                assert(s.deposits.contains_key(key));
                lemma_locked_remove(s.deposits, key, token);
                lemma_emergency_flow(s, contract, admin, depositor, deposit_id, token, contract);
            },
            Call::BatchEmergencyWithdraw { admin, depositors } => {
                lemma_batch_solvent(s, contract, admin, depositors, token);
            },
            _ => {
                lemma_flow_without_transfers(call.wanted(s, contract), token, contract);
            },
        }
    }
}

/// The balance of the vault in `token` after `steps`, if it was `held` before.
pub open spec fn held_after(
    s: VaultState,
    contract: Address,
    held: int,
    steps: Seq<Step>,
    token: Address,
) -> int
    decreases steps.len(),
{
    if steps.len() == 0 {
        held
    } else {
        held_after(s, contract, held, steps.drop_last(), token) + flow(
            steps.last().call.effects(
                calls::run(s, steps.drop_last()),
                contract,
                steps.last().now,
            ),
            token,
            contract,
        )
    }
}

/// After any history of a new vault its balance in every token covers what is locked in that
/// token, as long as the vault's own address does not pay in.
pub proof fn law_every_history_is_solvent(
    contract: Address,
    held: int,
    steps: Seq<Step>,
    token: Address,
)
    requires
        held >= 0,
        calls::runs_within_limits(VaultState::empty(), steps),
        forall|i: int| 0 <= i < steps.len() ==> !pays_in_from((#[trigger] steps[i]).call, contract),
    ensures
        held_after(VaultState::empty(), contract, held, steps, token) >= locked(
            calls::run(VaultState::empty(), steps).deposits,
            token,
        ),
    decreases steps.len(),
{
    if steps.len() > 0 {
        let init = steps.drop_last();
        assert forall|i: int| 0 <= i < init.len() implies !pays_in_from(
            (#[trigger] init[i]).call,
            contract,
        ) by {
            assert(init[i] == steps[i]);
        }
        law_every_history_is_solvent(contract, held, init, token);
        validity::law_every_history_is_valid(init);
        assert(steps[steps.len() - 1] == steps.last());
        law_calls_keep_the_vault_solvent(
            calls::run(VaultState::empty(), init),
            contract,
            steps.last().now,
            steps.last().call,
            token,
        );
    }
}

// ----------------------------------------------------------------
//  Payouts
// ----------------------------------------------------------------

/// A deposit that is made and withdrawn later, with no beneficiary set, leaves every balance
/// as it was.
pub proof fn law_deposit_and_withdraw_cancel_out(
    s: VaultState,
    contract: Address,
    now: u64,
    later: u64,
    deposit: Call,
    token: Address,
    holder: Address,
)
    requires
        deposit is Deposit,
        deposit.within_limits(s, now),
        deposit.fault(s, now) is None,
        s.beneficiaries.get(deposit.caller()) is None,
        later >= deposit->Deposit_unlock_time,
    ensures
        ({
            let t = deposit.after(s, now);
            let withdraw = Call::Withdraw {
                depositor: deposit.caller(),
                deposit_id: s.next_id(deposit.caller()),
            };
            &&& withdraw.fault(t, later) is None
            &&& flow(
                deposit.effects(s, contract, now) + withdraw.effects(t, contract, later),
                token,
                holder,
            ) == 0
        }),
{
    let t = deposit.after(s, now);
    let withdraw = Call::Withdraw {
        depositor: deposit.caller(),
        deposit_id: s.next_id(deposit.caller()),
    };
    if let Call::Deposit { depositor, token: paid, amount, unlock_time, penalty_bps } = deposit {
        lemma_call_flow(s, contract, now, deposit, token, holder);
        lemma_call_flow(t, contract, later, withdraw, token, holder);
        lemma_flow_adds_up(
            deposit.effects(s, contract, now),
            withdraw.effects(t, contract, later),
            token,
            holder,
        );
        lemma_deposit_flow(s, contract, depositor, paid, amount, unlock_time, token, holder);
        lemma_withdraw_flow(t, contract, depositor, s.next_id(depositor), token, holder);
    }
}

/// A withdrawal pays the whole deposit to the beneficiary, or to the depositor where there is
/// none, and changes no other balance but the vault's.
pub proof fn law_withdraw_pays_the_recipient(
    s: VaultState,
    contract: Address,
    now: u64,
    depositor: Address,
    deposit_id: u32,
    token: Address,
    holder: Address,
)
    requires
        model::withdraw_fault(s, now, depositor, deposit_id) is None,
        holder != contract,
    ensures
        ({
            let entry = s.deposit(depositor, deposit_id).unwrap();
            let withdraw = Call::Withdraw { depositor, deposit_id };
            flow(withdraw.effects(s, contract, now), token, holder) == if holder
                == model::withdraw_recipient(s, depositor) {
                share(entry, token)
            } else {
                0
            }
        }),
{
    let withdraw = Call::Withdraw { depositor, deposit_id };
    lemma_call_flow(s, contract, now, withdraw, token, holder);
    lemma_withdraw_flow(s, contract, depositor, deposit_id, token, holder);
}

/// The administrator's emergency withdrawal pays the whole deposit to its depositor, whoever
/// the beneficiary is, and changes no other balance but the vault's.
pub proof fn law_emergency_withdraw_pays_the_depositor(
    s: VaultState,
    contract: Address,
    now: u64,
    admin: Address,
    depositor: Address,
    deposit_id: u32,
    token: Address,
    holder: Address,
)
    requires
        model::emergency_withdraw_fault(s, admin, depositor, deposit_id) is None,
        holder != contract,
    ensures
        ({
            let entry = s.deposit(depositor, deposit_id).unwrap();
            let call = Call::EmergencyWithdraw { admin, depositor, deposit_id };
            flow(call.effects(s, contract, now), token, holder) == if holder == depositor {
                share(entry, token)
            } else {
                0
            }
        }),
{
    let call = Call::EmergencyWithdraw { admin, depositor, deposit_id };
    lemma_call_flow(s, contract, now, call, token, holder);
    lemma_emergency_flow(s, contract, admin, depositor, deposit_id, token, holder);
}

/// Paying in takes exactly the amount paid from the depositor and gives it to the vault; no
/// other balance changes.
pub proof fn law_paying_in_moves_the_amount(
    s: VaultState,
    contract: Address,
    now: u64,
    call: Call,
    token: Address,
    holder: Address,
)
    requires
        call is Deposit || call is RenewDeposit,
        call.fault(s, now) is None,
        call.caller() != contract,
    ensures
        ({
            let paid = match call {
                Call::Deposit { token: t, amount, .. } => if t == token {
                    amount as int
                } else {
                    0
                },
                Call::RenewDeposit { depositor, deposit_id, additional_amount, .. } => if s.deposit(
                    depositor,
                    deposit_id,
                ).unwrap().token == token {
                    additional_amount as int
                } else {
                    0
                },
                _ => 0,
            };
            flow(call.effects(s, contract, now), token, holder) == if holder == contract {
                paid
            } else if holder == call.caller() {
                -paid
            } else {
                0
            }
        }),
{
    lemma_call_flow(s, contract, now, call, token, holder);
    match call {
        Call::Deposit { depositor, token: t, amount, unlock_time, .. } => {
            lemma_deposit_flow(s, contract, depositor, t, amount, unlock_time, token, holder);
        },
        Call::RenewDeposit { depositor, deposit_id, additional_amount, new_unlock_time } => {
            lemma_renew_flow(
                s,
                contract,
                depositor,
                deposit_id,
                additional_amount,
                new_unlock_time,
                token,
                holder,
            );
        },
        _ => {},
    }
}

/// Two renewals of a deposit in a row do what one does with both top-ups and the later unlock time:
/// to the records, and to every balance.
pub proof fn law_renewals_add_up(
    s: VaultState,
    contract: Address,
    now: u64,
    later: u64,
    depositor: Address,
    deposit_id: u32,
    first: i128,
    unlock_time: u64,
    second: i128,
    new_unlock_time: u64,
    token: Address,
    holder: Address,
)
    requires
        validity::valid(s),
        model::renew_deposit_fault(s, now, depositor, deposit_id, first, unlock_time) is None,
        model::renew_deposit_fault(
            model::renew_deposit_state(s, depositor, deposit_id, first, unlock_time),
            later,
            depositor,
            deposit_id,
            second,
            new_unlock_time,
        ) is None,
    ensures
        first + second <= i128::MAX,
        ({
            let renew = Call::RenewDeposit {
                depositor,
                deposit_id,
                additional_amount: first,
                new_unlock_time: unlock_time,
            };
            let again = Call::RenewDeposit {
                depositor,
                deposit_id,
                additional_amount: second,
                new_unlock_time,
            };
            let at_once = Call::RenewDeposit {
                depositor,
                deposit_id,
                additional_amount: (first + second) as i128,
                new_unlock_time,
            };
            let t = renew.after(s, now);
            &&& at_once.fault(s, later) is None
            &&& at_once.after(s, later) == again.after(t, later)
            &&& flow(at_once.effects(s, contract, later), token, holder) == flow(
                renew.effects(s, contract, now) + again.effects(t, contract, later),
                token,
                holder,
            )
        }),
{
    let renew = Call::RenewDeposit {
        depositor,
        deposit_id,
        additional_amount: first,
        new_unlock_time: unlock_time,
    };
    let again = Call::RenewDeposit {
        depositor,
        deposit_id,
        additional_amount: second,
        new_unlock_time,
    };
    let both = (first + second) as i128;
    let at_once = Call::RenewDeposit {
        depositor,
        deposit_id,
        additional_amount: both,
        new_unlock_time,
    };
    let t = renew.after(s, now);
    assert(s.deposits.contains_key(DepositKey { depositor, deposit_id }));
    assert(at_once.after(s, later) =~= again.after(t, later));
    lemma_call_flow(s, contract, now, renew, token, holder);
    lemma_call_flow(t, contract, later, again, token, holder);
    lemma_call_flow(s, contract, later, at_once, token, holder);
    lemma_flow_adds_up(
        renew.effects(s, contract, now),
        again.effects(t, contract, later),
        token,
        holder,
    );
    lemma_renew_flow(s, contract, depositor, deposit_id, first, unlock_time, token, holder);
    lemma_renew_flow(t, contract, depositor, deposit_id, second, new_unlock_time, token, holder);
    lemma_renew_flow(s, contract, depositor, deposit_id, both, new_unlock_time, token, holder);
}

/// A batch pays every depositor that it names the whole first deposit, once, and changes no other
/// balance but the vault's.
pub proof fn law_batch_pays_the_depositors(
    s: VaultState,
    contract: Address,
    now: u64,
    admin: Address,
    depositors: Seq<Address>,
    token: Address,
    holder: Address,
)
    requires
        model::batch_emergency_withdraw_fault(s, admin, depositors) is None,
        holder != contract,
    ensures
        flow(
            (Call::BatchEmergencyWithdraw { admin, depositors }).effects(s, contract, now),
            token,
            holder,
        ) == match s.deposit(holder, model::batch_id()) {
            Some(entry) if depositors.contains(holder) => share(entry, token),
            _ => 0,
        },
{
    let call = Call::BatchEmergencyWithdraw { admin, depositors };
    lemma_call_flow(s, contract, now, call, token, holder);
    lemma_batch_flow(s, contract, admin, depositors, token, holder);
}

/// The penalty is a part of the deposit: no more than the whole, nothing at a rate of zero, and
/// the whole at the highest rate.
pub proof fn law_penalty_is_a_part(entry: VaultEntry)
    requires
        validity::valid_entry(entry),
    ensures
        0 <= model::penalty(entry) <= entry.amount,
        entry.penalty_bps == 0 ==> model::penalty(entry) == 0,
        entry.penalty_bps == MAX_PENALTY_BPS ==> model::penalty(entry) == entry.amount,
{
    assert(0 <= entry.amount * entry.penalty_bps <= entry.amount * 10_000) by (nonlinear_arith)
        requires
            0 < entry.amount,
            0 <= entry.penalty_bps <= 10_000,
    ;
    if entry.penalty_bps == 0 {
        assert(entry.amount * entry.penalty_bps == 0) by (nonlinear_arith)
            requires
                entry.penalty_bps == 0,
        ;
    }
}

/// A higher rate costs no less.
pub proof fn law_penalty_grows_with_the_rate(entry: VaultEntry, higher: VaultEntry)
    requires
        validity::valid_entry(entry),
        higher.amount == entry.amount,
        higher.penalty_bps >= entry.penalty_bps,
    ensures
        model::penalty(entry) <= model::penalty(higher),
{
    assert(entry.amount * entry.penalty_bps <= higher.amount * higher.penalty_bps)
        by (nonlinear_arith)
        requires
            0 < entry.amount,
            higher.amount == entry.amount,
            higher.penalty_bps >= entry.penalty_bps,
    ;
}

/// Leaving early gives the penalty to its recipient and the rest to the depositor, who gets the
/// whole deposit back where no fee recipient is set; no other balance changes but the vault's.
pub proof fn law_cancel_splits_the_deposit(
    s: VaultState,
    contract: Address,
    now: u64,
    depositor: Address,
    deposit_id: u32,
    token: Address,
    holder: Address,
)
    requires
        validity::valid(s),
        (Call::CancelDeposit { depositor, deposit_id }).within_limits(s, now),
        model::cancel_deposit_fault(s, now, depositor, deposit_id) is None,
        holder != contract,
    ensures
        ({
            let entry = s.deposit(depositor, deposit_id).unwrap();
            let cancel = Call::CancelDeposit { depositor, deposit_id };
            let fee = if entry.token == token { model::penalty(entry) } else { 0 };
            flow(cancel.effects(s, contract, now), token, holder) == (if holder == depositor {
                share(entry, token) - fee
            } else {
                0
            }) + (if holder == model::penalty_recipient(s, depositor) {
                fee
            } else {
                0
            })
        }),
{
    let cancel = Call::CancelDeposit { depositor, deposit_id };
    assert(s.deposits.contains_key(DepositKey { depositor, deposit_id }));
    lemma_call_flow(s, contract, now, cancel, token, holder);
    lemma_cancel_flow(s, contract, depositor, deposit_id, token, holder);
}

// ----------------------------------------------------------------
//  The flows of the single calls
// ----------------------------------------------------------------

pub proof fn lemma_call_flow(
    s: VaultState,
    contract: Address,
    now: u64,
    call: Call,
    token: Address,
    holder: Address,
)
    requires
        call.fault(s, now) is None,
    ensures
        flow(call.effects(s, contract, now), token, holder) == flow(
            call.wanted(s, contract),
            token,
            holder,
        ),
{
    lemma_flow_of_one(Effect::RequireAuth(call.caller()), token, holder);
    lemma_flow_adds_up(
        seq![Effect::RequireAuth(call.caller())],
        call.wanted(s, contract),
        token,
        holder,
    );
}

/// A rejected call moves nothing.
pub proof fn lemma_rejected_call_flow(
    s: VaultState,
    contract: Address,
    now: u64,
    call: Call,
    token: Address,
    holder: Address,
)
    requires
        call.fault(s, now) is Some,
    ensures
        flow(call.effects(s, contract, now), token, holder) == 0,
{
    lemma_flow_of_one(Effect::RequireAuth(call.caller()), token, holder);
}

proof fn lemma_flow_without_transfers(effects: Seq<Effect>, token: Address, holder: Address)
    requires
        forall|i: int| 0 <= i < effects.len() ==> !(#[trigger] effects[i] is Transfer),
    ensures
        flow(effects, token, holder) == 0,
    decreases effects.len(),
{
    if effects.len() > 0 {
        let init = effects.drop_last();
        assert forall|i: int| 0 <= i < init.len() implies !(#[trigger] init[i] is Transfer) by {
            assert(init[i] == effects[i]);
        }
        lemma_flow_without_transfers(init, token, holder);
    }
}

/// A list of effects with nothing but `transfer` to change a balance.
proof fn lemma_flow_around(
    before: Seq<Effect>,
    transfer: Transfer,
    after: Seq<Effect>,
    token: Address,
    holder: Address,
)
    requires
        forall|i: int| 0 <= i < before.len() ==> !(#[trigger] before[i] is Transfer),
        forall|i: int| 0 <= i < after.len() ==> !(#[trigger] after[i] is Transfer),
    ensures
        flow(before + seq![Effect::Transfer(transfer)] + after, token, holder) == transfer_flow(
            transfer,
            token,
            holder,
        ),
{
    lemma_flow_without_transfers(before, token, holder);
    lemma_flow_without_transfers(after, token, holder);
    lemma_flow_of_one(Effect::Transfer(transfer), token, holder);
    lemma_flow_adds_up(before, seq![Effect::Transfer(transfer)], token, holder);
    lemma_flow_adds_up(before + seq![Effect::Transfer(transfer)], after, token, holder);
}

proof fn lemma_deposit_flow(
    s: VaultState,
    contract: Address,
    depositor: Address,
    paid: Address,
    amount: i128,
    unlock_time: u64,
    token: Address,
    holder: Address,
)
    ensures
        flow(
            model::deposit_effects(s, contract, depositor, paid, amount, unlock_time),
            token,
            holder,
        ) == transfer_flow(
            Transfer { token: paid, from: depositor, to: contract, amount },
            token,
            holder,
        ),
{
    let all = model::deposit_effects(s, contract, depositor, paid, amount, unlock_time);
    let transfer = Transfer { token: paid, from: depositor, to: contract, amount };
    lemma_flow_around(all.take(1), transfer, all.skip(2), token, holder);
    assert(all =~= all.take(1) + seq![Effect::Transfer(transfer)] + all.skip(2));
}

proof fn lemma_renew_flow(
    s: VaultState,
    contract: Address,
    depositor: Address,
    deposit_id: u32,
    additional_amount: i128,
    new_unlock_time: u64,
    token: Address,
    holder: Address,
)
    requires
        additional_amount >= 0,
    ensures
        flow(
            model::renew_deposit_effects(
                s,
                contract,
                depositor,
                deposit_id,
                additional_amount,
                new_unlock_time,
            ),
            token,
            holder,
        ) == transfer_flow(
            Transfer {
                token: s.deposit(depositor, deposit_id).unwrap().token,
                from: depositor,
                to: contract,
                amount: additional_amount,
            },
            token,
            holder,
        ),
{
    let all = model::renew_deposit_effects(
        s,
        contract,
        depositor,
        deposit_id,
        additional_amount,
        new_unlock_time,
    );
    if additional_amount > 0 {
        let transfer = Transfer {
            token: s.deposit(depositor, deposit_id).unwrap().token,
            from: depositor,
            to: contract,
            amount: additional_amount,
        };
        lemma_flow_around(Seq::empty(), transfer, all.skip(1), token, holder);
        assert(all =~= Seq::empty() + seq![Effect::Transfer(transfer)] + all.skip(1));
    } else {
        lemma_flow_without_transfers(all, token, holder);
    }
}

proof fn lemma_withdraw_flow(
    s: VaultState,
    contract: Address,
    depositor: Address,
    deposit_id: u32,
    token: Address,
    holder: Address,
)
    ensures
        flow(model::withdraw_effects(s, contract, depositor, deposit_id), token, holder)
            == transfer_flow(
            Transfer {
                token: s.deposit(depositor, deposit_id).unwrap().token,
                from: contract,
                to: model::withdraw_recipient(s, depositor),
                amount: s.deposit(depositor, deposit_id).unwrap().amount,
            },
            token,
            holder,
        ),
{
    let all = model::withdraw_effects(s, contract, depositor, deposit_id);
    let transfer = all[3]->Transfer_0;
    lemma_flow_around(all.take(3), transfer, all.skip(4), token, holder);
    assert(all =~= all.take(3) + seq![Effect::Transfer(transfer)] + all.skip(4));
}

pub proof fn lemma_emergency_flow(
    s: VaultState,
    contract: Address,
    admin: Address,
    depositor: Address,
    deposit_id: u32,
    token: Address,
    holder: Address,
)
    ensures
        flow(
            model::emergency_withdraw_effects(s, contract, admin, depositor, deposit_id),
            token,
            holder,
        ) == transfer_flow(
            Transfer {
                token: s.deposit(depositor, deposit_id).unwrap().token,
                from: contract,
                to: depositor,
                amount: s.deposit(depositor, deposit_id).unwrap().amount,
            },
            token,
            holder,
        ),
{
    let all = model::emergency_withdraw_effects(s, contract, admin, depositor, deposit_id);
    let transfer = all[3]->Transfer_0;
    lemma_flow_around(all.take(3), transfer, all.skip(4), token, holder);
    assert(all =~= all.take(3) + seq![Effect::Transfer(transfer)] + all.skip(4));
}

pub proof fn lemma_batch_item_flow(
    s: VaultState,
    contract: Address,
    admin: Address,
    depositor: Address,
    token: Address,
    holder: Address,
)
    ensures
        flow(model::batch_item_effects(s, contract, admin, depositor), token, holder)
            == transfer_flow(
            Transfer {
                token: s.deposit(depositor, model::batch_id()).unwrap().token,
                from: contract,
                to: depositor,
                amount: s.deposit(depositor, model::batch_id()).unwrap().amount,
            },
            token,
            holder,
        ),
{
    let all = model::batch_item_effects(s, contract, admin, depositor);
    let transfer = all[3]->Transfer_0;
    lemma_flow_around(all.take(3), transfer, all.skip(4), token, holder);
    assert(all =~= all.take(3) + seq![Effect::Transfer(transfer)] + all.skip(4));
}

proof fn lemma_only_if_flow(
    condition: bool,
    effect: Effect,
    token: Address,
    holder: Address,
)
    ensures
        flow(model::only_if(condition, effect), token, holder) == if condition {
            effect_flow(effect, token, holder)
        } else {
            0
        },
{
    lemma_flow_of_one(effect, token, holder);
}

proof fn lemma_cancel_flow(
    s: VaultState,
    contract: Address,
    depositor: Address,
    deposit_id: u32,
    token: Address,
    holder: Address,
)
    requires
        s.deposit(depositor, deposit_id) matches Some(entry) && validity::valid_entry(entry)
            && model::penalty_computable(entry),
    ensures
        ({
            let entry = s.deposit(depositor, deposit_id).unwrap();
            let fee = model::penalty(entry);
            &&& 0 <= fee <= entry.amount
            &&& flow(
                model::cancel_deposit_effects(s, contract, depositor, deposit_id),
                token,
                holder,
            ) == transfer_flow(
                Transfer {
                    token: entry.token,
                    from: contract,
                    to: model::penalty_recipient(s, depositor),
                    amount: fee as i128,
                },
                token,
                holder,
            ) + transfer_flow(
                Transfer {
                    token: entry.token,
                    from: contract,
                    to: depositor,
                    amount: (entry.amount - fee) as i128,
                },
                token,
                holder,
            )
        }),
{
    let entry = s.deposit(depositor, deposit_id).unwrap();
    law_penalty_is_a_part(entry);
    let fee = model::penalty(entry);
    let refund = entry.amount - fee;
    let stores = model::closing_stores(depositor, deposit_id);
    let to_recipient = Effect::Transfer(
        Transfer {
            token: entry.token,
            from: contract,
            to: model::penalty_recipient(s, depositor),
            amount: fee as i128,
        },
    );
    let to_depositor = Effect::Transfer(
        Transfer { token: entry.token, from: contract, to: depositor, amount: refund as i128 },
    );
    let first = model::only_if(fee > 0, to_recipient);
    let second = model::only_if(refund > 0, to_depositor);
    let all = model::cancel_deposit_effects(s, contract, depositor, deposit_id);
    let event = seq![all.last()];
    lemma_flow_without_transfers(stores, token, holder);
    lemma_only_if_flow(fee > 0, to_recipient, token, holder);
    lemma_only_if_flow(refund > 0, to_depositor, token, holder);
    lemma_flow_of_one(all.last(), token, holder);
    lemma_flow_adds_up(stores, first, token, holder);
    lemma_flow_adds_up(stores + first, second, token, holder);
    lemma_flow_adds_up(stores + first + second, event, token, holder);
    assert(all =~= stores + first + second + event);
}

proof fn lemma_batch_flow(
    s: VaultState,
    contract: Address,
    admin: Address,
    depositors: Seq<Address>,
    token: Address,
    holder: Address,
)
    requires
        holder != contract,
    ensures
        flow(
            model::batch_emergency_withdraw_effects(s, contract, admin, depositors),
            token,
            holder,
        ) == match s.deposit(holder, model::batch_id()) {
            Some(entry) if depositors.contains(holder) => share(entry, token),
            _ => 0,
        },
    decreases depositors.len(),
{
    if depositors.len() > 0 {
        let init = depositors.drop_last();
        let last = depositors.last();
        let i = depositors.len() - 1;
        lemma_batch_flow(s, contract, admin, init, token, holder);
        assert(depositors.take(i) =~= init);
        assert(depositors[i] == last);
        if init.contains(holder) {
            let j = init.index_of(holder);
            assert(depositors[j] == holder);
        }
        if depositors.contains(holder) && last != holder {
            let j = depositors.index_of(holder);
            assert(init[j] == holder);
        }
        lemma_flow_adds_up(
            model::batch_emergency_withdraw_effects(s, contract, admin, init),
            if model::batch_hit(s, depositors, i) {
                model::batch_item_effects(s, contract, admin, last)
            } else {
                Seq::empty()
            },
            token,
            holder,
        );
        lemma_batch_item_flow(s, contract, admin, last, token, holder);
    }
}

proof fn lemma_batch_solvent(
    s: VaultState,
    contract: Address,
    admin: Address,
    depositors: Seq<Address>,
    token: Address,
)
    requires
        validity::valid(s),
    ensures
        ({
            let t = model::batch_emergency_withdraw_state(s, depositors);
            let gained = flow(
                model::batch_emergency_withdraw_effects(s, contract, admin, depositors),
                token,
                contract,
            );
            &&& t.deposits.dom().finite()
            &&& gained >= locked(t.deposits, token) - locked(s.deposits, token)
            &&& !depositors.contains(contract) ==> gained == locked(t.deposits, token) - locked(
                s.deposits,
                token,
            )
        }),
    decreases depositors.len(),
{
    if depositors.len() == 0 {
        assert(depositors =~= Seq::empty());
        model::lemma_batch_of_nobody(s);
    } else {
        let init = depositors.drop_last();
        let last = depositors.last();
        let i = depositors.len() - 1;
        let before = model::batch_emergency_withdraw_state(s, init);
        let key = DepositKey { depositor: last, deposit_id: model::batch_id() };
        lemma_batch_solvent(s, contract, admin, init, token);
        assert(depositors =~= init.push(last));
        model::lemma_batch_step(s, init, last);
        assert(depositors.take(i) =~= init);
        assert(depositors[i] == last);
        if !depositors.contains(contract) && init.contains(contract) {
            let j = init.index_of(contract);
            assert(depositors[j] == contract);
        }
        lemma_flow_adds_up(
            model::batch_emergency_withdraw_effects(s, contract, admin, init),
            if model::batch_hit(s, depositors, i) {
                model::batch_item_effects(s, contract, admin, last)
            } else {
                Seq::empty()
            },
            token,
            contract,
        );
        if model::batch_hit(s, depositors, i) {
            assert(before.deposits.contains_key(key));
            assert(s.deposits.contains_key(key));
            assert(before.deposits[key] == s.deposits[key]);
            lemma_locked_remove(before.deposits, key, token);
            lemma_batch_item_flow(s, contract, admin, last, token, contract);
        }
    }
}

} // verus!
