//! The invariant of the vault's records.

use vstd::prelude::*;

use crate::constants::MAX_PENALTY_BPS;
use crate::errors::VaultError;
use crate::laws::calls::{Call, Step};
use crate::laws::calls;
use crate::model;
use crate::storage::VaultState;
use crate::storage;
use crate::types::{Address, DepositKey, VaultEntry};

verus! {

/// What holds of every active deposit.
pub open spec fn valid_entry(entry: VaultEntry) -> bool {
    &&& entry.amount > 0
    &&& entry.penalty_bps <= MAX_PENALTY_BPS
    &&& entry.beneficiary is None
}

/// What holds of the records at all times.
pub open spec fn valid(s: VaultState) -> bool {
    &&& valid_deposits(s)
    &&& valid_list(s)
    &&& valid_roles(s)
}

/// There are finitely many deposits, each of them valid, and numbered below the
/// depositor's next number.
pub open spec fn valid_deposits(s: VaultState) -> bool {
    &&& s.deposits.dom().finite()
    &&& forall|key: DepositKey| #[trigger]
        s.deposits.contains_key(key) ==> valid_entry(s.deposits[key]) && key.deposit_id
            < s.next_id(key.depositor)
}

/// Nobody is listed twice, and whoever is listed has an active deposit.
pub open spec fn valid_list(s: VaultState) -> bool {
    &&& s.depositors.no_duplicates()
    &&& forall|i: int| 0 <= i < s.depositors.len() ==> has_deposits(s, #[trigger] s.depositors[i])
}

/// Whether `depositor` has an active deposit.
pub open spec fn has_deposits(s: VaultState, depositor: Address) -> bool {
    exists|deposit_id: u32| #[trigger] s.deposit(depositor, deposit_id) is Some
}

/// Limits are positive; before the initialization there are none and there is no
/// administrator; and a proposed administrator is another than the present one, who
/// exists.
pub open spec fn valid_roles(s: VaultState) -> bool {
    &&& s.max_deposit matches Some(max) ==> max > 0
    &&& s.max_lock_secs matches Some(max) ==> max > 0
    &&& !s.initialized ==> s.admin is None && s.max_deposit is None && s.max_lock_secs is None
    &&& s.pending_admin is Some ==> s.admin is Some && s.admin != s.pending_admin
}

/// A new vault is valid.
pub proof fn law_new_vault_is_valid()
    ensures
        valid(VaultState::empty()),
{
}

/// Every call keeps the vault valid.
pub proof fn law_calls_keep_the_vault_valid(s: VaultState, now: u64, call: Call)
    requires
        valid(s),
        call.within_limits(s, now),
    ensures
        valid(call.after(s, now)),
{
    if call.fault(s, now) is None {
        match call {
            Call::Deposit { depositor, token, amount, unlock_time, penalty_bps } => {
                lemma_deposit_keeps_valid(s, depositor, token, amount, unlock_time, penalty_bps);
            },
            Call::RenewDeposit { depositor, deposit_id, additional_amount, new_unlock_time } => {
                let entry = s.deposit(depositor, deposit_id).unwrap();
                lemma_rewriting_keeps_valid(
                    s,
                    depositor,
                    deposit_id,
                    model::renewed(entry, additional_amount, new_unlock_time),
                );
            },
            Call::ExtendLock { depositor, deposit_id, new_unlock_time } => {
                let entry = s.deposit(depositor, deposit_id).unwrap();
                lemma_rewriting_keeps_valid(
                    s,
                    depositor,
                    deposit_id,
                    VaultEntry { unlock_time: new_unlock_time, ..entry },
                );
            },
            Call::CancelDeposit { depositor, deposit_id } => {
                lemma_closing_keeps_valid(s, depositor, deposit_id);
            },
            Call::Withdraw { depositor, deposit_id } => {
                lemma_closing_keeps_valid(s, depositor, deposit_id);
            },
            Call::EmergencyWithdraw { depositor, deposit_id, .. } => {
                lemma_closing_keeps_valid(s, depositor, deposit_id);
            },
            Call::BatchEmergencyWithdraw { depositors, .. } => {
                lemma_batch_keeps_valid(s, depositors);
            },
            _ => {
                lemma_same_deposits_keep_list(s, call.done(s));
            },
        }
    }
}

/// Every history of a new vault leads to a valid one.
pub proof fn law_every_history_is_valid(steps: Seq<Step>)
    requires
        calls::runs_within_limits(VaultState::empty(), steps),
    ensures
        valid(calls::run(VaultState::empty(), steps)),
    decreases steps.len(),
{
    if steps.len() == 0 {
        law_new_vault_is_valid();
    } else {
        law_every_history_is_valid(steps.drop_last());
        law_calls_keep_the_vault_valid(
            calls::run(VaultState::empty(), steps.drop_last()),
            steps.last().now,
            steps.last().call,
        );
    }
}

/// The number of a new deposit is always free: a valid vault never answers
/// `DepositAlreadyExists`.
pub proof fn law_deposit_number_is_free(s: VaultState, now: u64, call: Call)
    requires
        valid(s),
    ensures
        call.fault(s, now) != Some(VaultError::DepositAlreadyExists),
{
    if let Call::Deposit { depositor, .. } = call {
        let key = DepositKey { depositor, deposit_id: s.next_id(depositor) };
        assert(!s.deposits.contains_key(key));
    }
}

proof fn lemma_same_deposits_keep_list(s: VaultState, t: VaultState)
    requires
        valid_list(s),
        t.deposits == s.deposits,
        t.depositors == s.depositors,
    ensures
        valid_list(t),
{
    assert forall|i: int| 0 <= i < t.depositors.len() implies has_deposits(
        t,
        #[trigger] t.depositors[i],
    ) by {
        let d = s.depositors[i];
        assert(has_deposits(s, d));
        let id = choose|id: u32| #[trigger] s.deposit(d, id) is Some;
        assert(t.deposit(d, id) is Some);
    }
}

proof fn lemma_deposit_keeps_valid(
    s: VaultState,
    depositor: Address,
    token: Address,
    amount: i128,
    unlock_time: u64,
    penalty_bps: u32,
)
    requires
        valid(s),
        amount > 0,
        penalty_bps <= MAX_PENALTY_BPS,
        s.next_id(depositor) < u32::MAX,
    ensures
        valid(model::deposit_state(s, depositor, token, amount, unlock_time, penalty_bps)),
{
    let t = model::deposit_state(s, depositor, token, amount, unlock_time, penalty_bps);
    let id = s.next_id(depositor);
    assert forall|key: DepositKey| #[trigger] t.deposits.contains_key(key) implies valid_entry(
        t.deposits[key],
    ) && key.deposit_id < t.next_id(key.depositor) by {
        if key != (DepositKey { depositor, deposit_id: id }) {
            assert(s.deposits.contains_key(key));
        }
    }
    assert forall|i: int| 0 <= i < t.depositors.len() implies has_deposits(
        t,
        #[trigger] t.depositors[i],
    ) by {
        let d = t.depositors[i];
        if d == depositor {
            assert(t.deposit(d, id) is Some);
        } else {
            assert(d == s.depositors[i]);
            assert(has_deposits(s, d));
            let other = choose|other: u32| #[trigger] s.deposit(d, other) is Some;
            assert(t.deposit(d, other) is Some);
        }
    }
    assert(t.depositors.no_duplicates());
}

proof fn lemma_rewriting_keeps_valid(
    s: VaultState,
    depositor: Address,
    deposit_id: u32,
    entry: VaultEntry,
)
    requires
        valid(s),
        s.deposit(depositor, deposit_id) is Some,
        valid_entry(entry),
    ensures
        valid(s.with_deposit(depositor, deposit_id, entry)),
{
    let t = s.with_deposit(depositor, deposit_id, entry);
    assert forall|key: DepositKey| #[trigger] t.deposits.contains_key(key) implies valid_entry(
        t.deposits[key],
    ) && key.deposit_id < t.next_id(key.depositor) by {
        assert(s.deposits.contains_key(key));
    }
    assert forall|i: int| 0 <= i < t.depositors.len() implies has_deposits(
        t,
        #[trigger] t.depositors[i],
    ) by {
        let d = s.depositors[i];
        assert(has_deposits(s, d));
        let id = choose|id: u32| #[trigger] s.deposit(d, id) is Some;
        assert(t.deposit(d, id) is Some);
    }
}

/// Taking a depositor off a list without duplicates leaves a list without duplicates, of
/// exactly the others.
pub proof fn lemma_unlisted(list: Seq<Address>, depositor: Address)
    ensures
        list.no_duplicates() ==> list.filter(storage::other_than(depositor)).no_duplicates(),
        forall|a: Address|
            #![trigger list.filter(storage::other_than(depositor)).contains(a)]
            list.filter(storage::other_than(depositor)).contains(a) <==> (list.contains(a) && a
                != depositor),
    decreases list.len(),
{
    reveal(Seq::filter);
    let kept = list.filter(storage::other_than(depositor));
    if list.len() > 0 {
        let init = list.drop_last();
        let before = init.filter(storage::other_than(depositor));
        lemma_unlisted(init, depositor);
        assert forall|a: Address| #![trigger kept.contains(a)] kept.contains(a) <==> (list.contains(
            a,
        ) && a != depositor) by {
            assert(list.contains(a) <==> init.contains(a) || a == list.last()) by {
                assert(list =~= init.push(list.last()));
                if init.contains(a) {
                    let i = init.index_of(a);
                    assert(list[i] == a);
                }
                if a == list.last() {
                    assert(list[list.len() - 1] == a);
                }
                if list.contains(a) && a != list.last() {
                    let i = list.index_of(a);
                    assert(init[i] == a);
                }
            }
            assert(before.contains(a) <==> (init.contains(a) && a != depositor));
            if list.last() != depositor {
                assert(kept == before.push(list.last()));
                if before.contains(a) {
                    let i = before.index_of(a);
                    assert(kept[i] == a);
                }
                if a == list.last() {
                    assert(kept[kept.len() - 1] == a);
                }
                if kept.contains(a) && a != list.last() {
                    let i = kept.index_of(a);
                    assert(before[i] == a);
                }
            }
        }
        if list.no_duplicates() {
            assert(init.no_duplicates());
            if list.last() != depositor {
                assert(!init.contains(list.last()));
                assert(!before.contains(list.last()));
            }
        }
    }
}

proof fn lemma_closing_keeps_valid(s: VaultState, depositor: Address, deposit_id: u32)
    requires
        valid(s),
    ensures
        valid(model::closed_state(s, depositor, deposit_id)),
{
    let t = model::closed_state(s, depositor, deposit_id);
    assert forall|key: DepositKey| #[trigger] t.deposits.contains_key(key) implies valid_entry(
        t.deposits[key],
    ) && key.deposit_id < t.next_id(key.depositor) by {
        assert(s.deposits.contains_key(key));
    }
    lemma_unlisted(s.depositors, depositor);
    assert forall|i: int| 0 <= i < t.depositors.len() implies has_deposits(
        t,
        #[trigger] t.depositors[i],
    ) by {
        let d = t.depositors[i];
        assert(t.depositors.contains(d));
        assert(s.depositors.contains(d) && d != depositor);
        let j = s.depositors.index_of(d);
        assert(has_deposits(s, s.depositors[j]));
        let id = choose|id: u32| #[trigger] s.deposit(d, id) is Some;
        assert(t.deposit(d, id) is Some);
    }
}

proof fn lemma_batch_keeps_valid(s: VaultState, depositors: Seq<Address>)
    requires
        valid(s),
    ensures
        valid(model::batch_emergency_withdraw_state(s, depositors)),
    decreases depositors.len(),
{
    if depositors.len() == 0 {
        assert(depositors =~= Seq::empty());
        model::lemma_batch_of_nobody(s);
    } else {
        let init = depositors.drop_last();
        assert(depositors =~= init.push(depositors.last()));
        model::lemma_batch_step(s, init, depositors.last());
        lemma_batch_keeps_valid(s, init);
        lemma_closing_keeps_valid(
            model::batch_emergency_withdraw_state(s, init),
            depositors.last(),
            model::batch_id(),
        );
    }
}

} // verus!
