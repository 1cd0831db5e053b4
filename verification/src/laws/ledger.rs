//! Laws of the calls' dealings with the ledger: which records they read, which they write, in
//! which order they ask for writes and payments, and how long they keep deposits alive.

use vstd::prelude::*;

use crate::constants::MAX_LOCK_DURATION_SECS;
use crate::env::Effect;
use crate::laws::calls::Call;
use crate::model;
use crate::storage::{BUMP_TARGET, LEDGER_INTERVAL_SECS, VaultState};
use crate::storage;
use crate::types::{Address, DepositKey, VaultKey};

verus! {

/// Whether the record under `key` is the same in `s` and in `t`.
pub open spec fn same_record(s: VaultState, t: VaultState, key: VaultKey) -> bool {
    match key {
        VaultKey::Admin => s.admin == t.admin,
        VaultKey::PendingAdmin => s.pending_admin == t.pending_admin,
        VaultKey::Initialized => s.initialized == t.initialized,
        VaultKey::MaxDeposit => s.max_deposit == t.max_deposit,
        VaultKey::MaxLockSecs => s.max_lock_secs == t.max_lock_secs,
        VaultKey::FeeRecipient => s.fee_recipient == t.fee_recipient,
        VaultKey::DepositCounter(depositor) => s.next_ids.get(depositor) == t.next_ids.get(
            depositor,
        ),
        VaultKey::Deposit(depositor, deposit_id) => s.deposit(depositor, deposit_id) == t.deposit(
            depositor,
            deposit_id,
        ),
        VaultKey::Depositors => s.depositors == t.depositors,
        VaultKey::Beneficiary(depositor) => s.beneficiaries.get(depositor) == t.beneficiaries.get(
            depositor,
        ),
    }
}

/// The records make up the whole of the vault.
pub proof fn law_records_are_all_there_is(s: VaultState, t: VaultState)
    requires
        forall|key: VaultKey| #[trigger] same_record(s, t, key),
    ensures
        s == t,
{
    assert(same_record(s, t, VaultKey::Admin));
    assert(same_record(s, t, VaultKey::PendingAdmin));
    assert(same_record(s, t, VaultKey::Initialized));
    assert(same_record(s, t, VaultKey::MaxDeposit));
    assert(same_record(s, t, VaultKey::MaxLockSecs));
    assert(same_record(s, t, VaultKey::FeeRecipient));
    assert(same_record(s, t, VaultKey::Depositors));
    assert(s.next_ids =~= t.next_ids) by {
        assert forall|d: Address| s.next_ids.get(d) == #[trigger] t.next_ids.get(d) by {
            assert(same_record(s, t, VaultKey::DepositCounter(d)));
        }
        lemma_equal_gets(s.next_ids, t.next_ids);
    }
    assert(s.deposits =~= t.deposits) by {
        assert forall|k: DepositKey| s.deposits.get(k) == #[trigger] t.deposits.get(k) by {
            assert(same_record(s, t, VaultKey::Deposit(k.depositor, k.deposit_id)));
        }
        lemma_equal_gets(s.deposits, t.deposits);
    }
    assert(s.beneficiaries =~= t.beneficiaries) by {
        assert forall|d: Address| s.beneficiaries.get(d) == #[trigger] t.beneficiaries.get(d) by {
            assert(same_record(s, t, VaultKey::Beneficiary(d)));
        }
        lemma_equal_gets(s.beneficiaries, t.beneficiaries);
    }
}

proof fn lemma_equal_gets<K, V>(a: Map<K, V>, b: Map<K, V>)
    requires
        forall|k: K| a.get(k) == #[trigger] b.get(k),
    ensures
        a == b,
{
    assert forall|k: K| a.dom().contains(k) <==> b.dom().contains(k) by {
        assert(a.get(k) == b.get(k));
    }
    assert forall|k: K| a.dom().contains(k) implies a[k] == b[k] by {
        assert(a.get(k) == b.get(k));
    }
    assert(a =~= b);
}

/// Every record that a call changes is among those that it asks to be written.
pub proof fn law_every_change_is_written(
    s: VaultState,
    contract: Address,
    now: u64,
    call: Call,
    key: VaultKey,
)
    requires
        !same_record(s, call.after(s, now), key),
    ensures
        call.effects(s, contract, now).contains(Effect::Store(key)),
{
    let all = call.effects(s, contract, now);
    match call {
        Call::Initialize { max_deposit, max_lock_secs, .. } => {
            assert(all[1] == Effect::Store(VaultKey::Admin));
            assert(all[2] == Effect::Store(VaultKey::Initialized));
            if max_deposit is Some {
                assert(all[3] == Effect::Store(VaultKey::MaxDeposit));
            }
            if max_lock_secs is Some {
                assert(all[all.len() - 1] == Effect::Store(VaultKey::MaxLockSecs));
            }
        },
        Call::Deposit { depositor, .. } => {
            assert(all[1] == Effect::Store(VaultKey::DepositCounter(depositor)));
            assert(all[3] == Effect::Store(VaultKey::Deposit(depositor, s.next_id(depositor))));
            assert(all[5] == Effect::Store(VaultKey::Depositors));
        },
        Call::RenewDeposit { depositor, deposit_id, .. } => {
            assert(all[all.len() - 3] == Effect::Store(VaultKey::Deposit(depositor, deposit_id)));
        },
        Call::ExtendLock { depositor, deposit_id, .. } => {
            assert(all[1] == Effect::Store(VaultKey::Deposit(depositor, deposit_id)));
        },
        Call::SetBeneficiary { depositor, .. } => {
            assert(all[1] == Effect::Store(VaultKey::Beneficiary(depositor)));
        },
        Call::CancelDeposit { depositor, deposit_id } => {
            lemma_closing_is_written(s, depositor, deposit_id, key, all);
        },
        Call::Withdraw { depositor, deposit_id } => {
            lemma_closing_is_written(s, depositor, deposit_id, key, all);
        },
        Call::EmergencyWithdraw { depositor, deposit_id, .. } => {
            lemma_closing_is_written(s, depositor, deposit_id, key, all);
        },
        Call::BatchEmergencyWithdraw { admin, depositors } => {
            let items = model::batch_emergency_withdraw_effects(s, contract, admin, depositors);
            lemma_batch_is_written(s, contract, admin, depositors, key);
            let i = items.index_of(Effect::Store(key));
            assert(all[i + 1] == items[i]);
        },
        Call::TransferAdmin { .. } => {
            assert(all[1] == Effect::Store(VaultKey::PendingAdmin));
        },
        Call::AcceptAdmin { .. } => {
            assert(all[1] == Effect::Store(VaultKey::Admin));
            assert(all[2] == Effect::Store(VaultKey::PendingAdmin));
        },
        Call::CancelTransferAdmin { .. } => {
            assert(all[1] == Effect::Store(VaultKey::PendingAdmin));
        },
        Call::RenounceAdmin { .. } => {
            assert(all[1] == Effect::Store(VaultKey::Admin));
            assert(all[2] == Effect::Store(VaultKey::PendingAdmin));
        },
    }
}

proof fn lemma_closing_is_written(
    s: VaultState,
    depositor: Address,
    deposit_id: u32,
    key: VaultKey,
    all: Seq<Effect>,
)
    requires
        !same_record(s, model::closed_state(s, depositor, deposit_id), key),
        all.len() >= 4,
        all[1] == Effect::Store(VaultKey::Deposit(depositor, deposit_id)),
        all[2] == Effect::Store(VaultKey::Depositors),
        all[3] == Effect::Store(VaultKey::Beneficiary(depositor)),
    ensures
        all.contains(Effect::Store(key)),
{
}

proof fn lemma_batch_is_written(
    s: VaultState,
    contract: Address,
    admin: Address,
    depositors: Seq<Address>,
    key: VaultKey,
)
    requires
        !same_record(s, model::batch_emergency_withdraw_state(s, depositors), key),
    ensures
        model::batch_emergency_withdraw_effects(s, contract, admin, depositors).contains(
            Effect::Store(key),
        ),
    decreases depositors.len(),
{
    let all = model::batch_emergency_withdraw_effects(s, contract, admin, depositors);
    if depositors.len() == 0 {
        assert(depositors =~= Seq::empty());
        model::lemma_batch_of_nobody(s);
    } else {
        let init = depositors.drop_last();
        let last = depositors.last();
        let i = depositors.len() - 1;
        let before = model::batch_emergency_withdraw_state(s, init);
        let earlier = model::batch_emergency_withdraw_effects(s, contract, admin, init);
        if !same_record(s, before, key) {
            lemma_batch_is_written(s, contract, admin, init, key);
            let j = earlier.index_of(Effect::Store(key));
            assert(all[j] == earlier[j]);
        } else {
            assert(depositors.take(i) =~= init);
            assert(depositors =~= init.push(last));
            model::lemma_batch_step(s, init, last);
            assert(model::batch_hit(s, depositors, i));
            let n = earlier.len() as int;
            let item = model::batch_item_effects(s, contract, admin, last);
            assert(all =~= earlier + item);
            assert(all[n] == Effect::Store(VaultKey::Deposit(last, model::batch_id())));
            assert(all[n + 1] == Effect::Store(VaultKey::Depositors));
            assert(all[n + 2] == Effect::Store(VaultKey::Beneficiary(last)));
        }
    }
}

/// Whether a call depends on the record under `key`: on every record that does not belong to a
/// depositor; on the number and the beneficiary of the depositors that it concerns; and on the
/// deposits that it names, or is about to make.
pub open spec fn needs(call: Call, s: VaultState, key: VaultKey) -> bool {
    match key {
        VaultKey::DepositCounter(depositor) => call.concerns(depositor),
        VaultKey::Beneficiary(depositor) => call.concerns(depositor),
        VaultKey::Deposit(depositor, id) => call.concerns(depositor) && match call {
            Call::Deposit { .. } => id == s.next_id(depositor),
            Call::RenewDeposit { deposit_id, .. } => id == deposit_id,
            Call::CancelDeposit { deposit_id, .. } => id == deposit_id,
            Call::ExtendLock { deposit_id, .. } => id == deposit_id,
            Call::Withdraw { deposit_id, .. } => id == deposit_id,
            Call::EmergencyWithdraw { deposit_id, .. } => id == deposit_id,
            Call::BatchEmergencyWithdraw { .. } => id == model::batch_id(),
            _ => false,
        },
        _ => true,
    }
}

/// A call depends on nothing but the records that it needs: on any two vaults that agree on these
/// it gives the same answer, asks for the same effects, and leaves the same behind in these
/// records. It leaves every other record alone.
pub proof fn law_calls_depend_on_what_they_need(
    s: VaultState,
    t: VaultState,
    contract: Address,
    now: u64,
    call: Call,
)
    requires
        forall|key: VaultKey| needs(call, s, key) ==> #[trigger] same_record(s, t, key),
    ensures
        call.fault(s, now) == call.fault(t, now),
        call.effects(s, contract, now) == call.effects(t, contract, now),
        forall|key: VaultKey|
            needs(call, s, key) ==> #[trigger] same_record(
                call.after(s, now),
                call.after(t, now),
                key,
            ),
        forall|key: VaultKey|
            !needs(call, s, key) ==> #[trigger] same_record(s, call.after(s, now), key),
{
    assert(same_record(s, t, VaultKey::Admin));
    assert(same_record(s, t, VaultKey::PendingAdmin));
    assert(same_record(s, t, VaultKey::Initialized));
    assert(same_record(s, t, VaultKey::MaxDeposit));
    assert(same_record(s, t, VaultKey::MaxLockSecs));
    assert(same_record(s, t, VaultKey::FeeRecipient));
    assert(same_record(s, t, VaultKey::Depositors));
    match call {
        Call::Deposit { depositor, .. } => {
            assert(same_record(s, t, VaultKey::DepositCounter(depositor)));
            assert(same_record(s, t, VaultKey::Deposit(depositor, s.next_id(depositor))));
        },
        Call::RenewDeposit { depositor, deposit_id, .. } => {
            assert(same_record(s, t, VaultKey::Deposit(depositor, deposit_id)));
        },
        Call::CancelDeposit { depositor, deposit_id } => {
            assert(same_record(s, t, VaultKey::Deposit(depositor, deposit_id)));
        },
        Call::ExtendLock { depositor, deposit_id, .. } => {
            assert(same_record(s, t, VaultKey::Deposit(depositor, deposit_id)));
        },
        Call::Withdraw { depositor, deposit_id } => {
            assert(same_record(s, t, VaultKey::Deposit(depositor, deposit_id)));
            assert(same_record(s, t, VaultKey::Beneficiary(depositor)));
        },
        Call::EmergencyWithdraw { depositor, deposit_id, .. } => {
            assert(same_record(s, t, VaultKey::Deposit(depositor, deposit_id)));
        },
        Call::BatchEmergencyWithdraw { admin, depositors } => {
            assert forall|i: int| 0 <= i < depositors.len() implies s.deposit(
                #[trigger] depositors[i],
                model::batch_id(),
            ) == t.deposit(depositors[i], model::batch_id()) by {
                assert(depositors.contains(depositors[i]));
                assert(same_record(s, t, VaultKey::Deposit(depositors[i], model::batch_id())));
            }
            lemma_batch_on_agreeing_vaults(s, t, contract, admin, depositors);
            assert(model::batch_spares(s, depositors) =~= model::batch_spares(t, depositors)) by {
                assert forall|a: Address| #[trigger]
                    model::batch_returns(s, depositors, a) == model::batch_returns(
                        t,
                        depositors,
                        a,
                    ) by {
                    if depositors.contains(a) {
                        let i = depositors.index_of(a);
                        assert(depositors[i] == a);
                    }
                }
            }
        },
        _ => {},
    }
    assert forall|key: VaultKey| needs(call, s, key) implies #[trigger] same_record(
        call.after(s, now),
        call.after(t, now),
        key,
    ) by {
        assert(same_record(s, t, key));
        if let Call::BatchEmergencyWithdraw { depositors, .. } = call {
            if let VaultKey::Beneficiary(depositor) = key {
                let i = depositors.index_of(depositor);
                assert(depositors[i] == depositor);
            }
        }
    }
}

proof fn lemma_batch_on_agreeing_vaults(
    s: VaultState,
    t: VaultState,
    contract: Address,
    admin: Address,
    depositors: Seq<Address>,
)
    requires
        forall|i: int|
            0 <= i < depositors.len() ==> s.deposit(#[trigger] depositors[i], model::batch_id())
                == t.deposit(depositors[i], model::batch_id()),
    ensures
        model::batch_emergency_withdraw_effects(s, contract, admin, depositors)
            == model::batch_emergency_withdraw_effects(t, contract, admin, depositors),
    decreases depositors.len(),
{
    if depositors.len() > 0 {
        let init = depositors.drop_last();
        assert forall|i: int| 0 <= i < init.len() implies s.deposit(
            #[trigger] init[i],
            model::batch_id(),
        ) == t.deposit(init[i], model::batch_id()) by {
            assert(init[i] == depositors[i]);
        }
        lemma_batch_on_agreeing_vaults(s, t, contract, admin, init);
        assert(depositors[depositors.len() - 1] == depositors.last());
    }
}

/// Whether a list of effects asks for no write after a payment.
pub open spec fn writes_before_payments(effects: Seq<Effect>) -> bool {
    forall|i: int, j: int|
        0 <= i < j < effects.len() && #[trigger] effects[i] is Transfer ==> !(#[trigger] effects[j]
            is Store)
}

/// Before the vault pays a deposit out, all that it has to forget of the deposit is written: no
/// payment precedes a write.
pub proof fn law_payouts_come_last(s: VaultState, contract: Address, now: u64, call: Call)
    requires
        call is CancelDeposit || call is Withdraw || call is EmergencyWithdraw,
    ensures
        writes_before_payments(call.effects(s, contract, now)),
{
}

/// The same holds of every single deposit that a batch returns.
pub proof fn law_batch_payouts_come_last(
    s: VaultState,
    contract: Address,
    admin: Address,
    depositor: Address,
)
    ensures
        writes_before_payments(model::batch_item_effects(s, contract, admin, depositor)),
{
}

/// A top-up is paid in before the deposit is written.
pub proof fn law_top_up_comes_first(s: VaultState, contract: Address, now: u64, call: Call)
    requires
        call is RenewDeposit,
    ensures
        forall|i: int, j: int|
            0 <= i < j < call.effects(s, contract, now).len() && #[trigger] call.effects(
                s,
                contract,
                now,
            )[i] is Store ==> !(#[trigger] call.effects(s, contract, now)[j] is Transfer),
{
}

// ----------------------------------------------------------------
//  Time to live
// ----------------------------------------------------------------

/// For how many ledgers the record under `key`, if it is there, stays alive after `effects`,
/// where it was to stay alive for `before`.
pub open spec fn alive_for(effects: Seq<Effect>, key: VaultKey, before: int) -> int
    decreases effects.len(),
{
    if effects.len() == 0 {
        before
    } else {
        let so_far = alive_for(effects.drop_last(), key, before);
        match effects.last() {
            Effect::KeepAlive(kept, ledgers) if kept == key && ledgers > so_far => ledgers as int,
            _ => so_far,
        }
    }
}

/// The deposit that the call writes and leaves active, if it is not rejected.
pub open spec fn written(call: Call, s: VaultState) -> Option<DepositKey> {
    match call {
        Call::Deposit { depositor, .. } => Some(
            DepositKey { depositor, deposit_id: s.next_id(depositor) },
        ),
        Call::RenewDeposit { depositor, deposit_id, .. } => Some(
            DepositKey { depositor, deposit_id },
        ),
        Call::ExtendLock { depositor, deposit_id, .. } => Some(
            DepositKey { depositor, deposit_id },
        ),
        _ => None,
    }
}

/// No call shortens the life of a record.
pub proof fn law_no_life_is_shortened(
    s: VaultState,
    contract: Address,
    now: u64,
    call: Call,
    key: VaultKey,
    before: int,
)
    ensures
        alive_for(call.effects(s, contract, now), key, before) >= before,
{
    lemma_alive_for_grows(call.effects(s, contract, now), key, before);
}

/// A deposit that a call writes and leaves active is kept alive for `BUMP_TARGET` ledgers from
/// then on. There is no other way for a deposit to be made or changed.
pub proof fn law_written_deposits_are_kept_alive(
    s: VaultState,
    contract: Address,
    now: u64,
    call: Call,
    key: DepositKey,
    before: int,
)
    ensures
        ({
            let after = call.after(s, now);
            let record = VaultKey::Deposit(key.depositor, key.deposit_id);
            &&& call.fault(s, now) is None && written(call, s) == Some(key) ==> {
                &&& after.deposits.contains_key(key)
                &&& alive_for(call.effects(s, contract, now), record, before) >= BUMP_TARGET
            }
            &&& after.deposits.contains_key(key) && after.deposits.get(key) != s.deposits.get(key)
                ==> call.fault(s, now) is None && written(call, s) == Some(key)
        }),
{
    let all = call.effects(s, contract, now);
    let record = VaultKey::Deposit(key.depositor, key.deposit_id);
    if call.fault(s, now) is None && written(call, s) == Some(key) {
        let i = match call {
            Call::Deposit { .. } => 4,
            Call::RenewDeposit { .. } => all.len() - 2,
            _ => 2,
        };
        assert(all[i] == Effect::KeepAlive(record, BUMP_TARGET));
        lemma_kept_alive(all, i, record, BUMP_TARGET, before);
    }
}

/// Unless the vault was initialized with a longer maximum of a lock than the default, a deposit
/// that a call writes stays alive until its unlock time.
pub proof fn law_deposits_outlive_their_locks(
    s: VaultState,
    contract: Address,
    now: u64,
    call: Call,
    key: DepositKey,
    before: int,
)
    requires
        call.fault(s, now) is None,
        written(call, s) == Some(key),
        model::max_lock(s) <= MAX_LOCK_DURATION_SECS,
    ensures
        call.after(s, now).deposits[key].unlock_time <= now + LEDGER_INTERVAL_SECS * alive_for(
            call.effects(s, contract, now),
            VaultKey::Deposit(key.depositor, key.deposit_id),
            before,
        ),
{
    law_written_deposits_are_kept_alive(s, contract, now, call, key, before);
    storage::law_bump_target_covers_the_longest_lock();
}

proof fn lemma_alive_for_grows(effects: Seq<Effect>, key: VaultKey, before: int)
    ensures
        alive_for(effects, key, before) >= before,
    decreases effects.len(),
{
    if effects.len() > 0 {
        lemma_alive_for_grows(effects.drop_last(), key, before);
    }
}

proof fn lemma_kept_alive(effects: Seq<Effect>, i: int, key: VaultKey, ledgers: u32, before: int)
    requires
        0 <= i < effects.len(),
        effects[i] == Effect::KeepAlive(key, ledgers),
    ensures
        alive_for(effects, key, before) >= ledgers,
    decreases effects.len(),
{
    if i < effects.len() - 1 {
        lemma_kept_alive(effects.drop_last(), i, key, ledgers, before);
    }
}

} // verus!
