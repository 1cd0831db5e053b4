//! Laws of the depositors: that they do not get in each other's way, how they are listed, what
//! becomes of their beneficiaries, and what a batch does to them.

use vstd::prelude::*;

use crate::laws::calls::{Call, Step};
use crate::laws::calls;
use crate::laws::funds;
use crate::laws::locks;
use crate::laws::validity;
use crate::model;
use crate::storage::VaultState;
use crate::storage;
use crate::types::Address;

verus! {

// ----------------------------------------------------------------
//  Isolation
// ----------------------------------------------------------------

/// A call leaves a depositor alone whom it does not concern: deposits, deposit number and
/// beneficiary stay as they are, and so does whether the depositor is listed.
pub proof fn law_calls_leave_others_alone(s: VaultState, now: u64, call: Call, other: Address)
    requires
        !call.concerns(other),
    ensures
        ({
            let t = call.after(s, now);
            &&& forall|deposit_id: u32| #[trigger]
                t.deposit(other, deposit_id) == s.deposit(other, deposit_id)
            &&& t.next_id(other) == s.next_id(other)
            &&& t.beneficiaries.get(other) == s.beneficiaries.get(other)
            &&& t.depositors.contains(other) == s.depositors.contains(other)
        }),
{
    if call.fault(s, now) is None {
        match call {
            Call::Deposit { depositor, .. } => {
                let t = call.after(s, now);
                if !s.depositors.contains(depositor) {
                    assert(t.depositors == s.depositors.push(depositor));
                    if s.depositors.contains(other) {
                        let i = s.depositors.index_of(other);
                        assert(t.depositors[i] == other);
                    }
                    if t.depositors.contains(other) {
                        let i = t.depositors.index_of(other);
                        assert(s.depositors[i] == other);
                    }
                }
            },
            Call::CancelDeposit { depositor, .. } => {
                validity::lemma_unlisted(s.depositors, depositor);
            },
            Call::Withdraw { depositor, .. } => {
                validity::lemma_unlisted(s.depositors, depositor);
            },
            Call::EmergencyWithdraw { depositor, .. } => {
                validity::lemma_unlisted(s.depositors, depositor);
            },
            Call::BatchEmergencyWithdraw { depositors, .. } => {
                lemma_filter_contains(s.depositors, model::batch_spares(s, depositors), other);
            },
            _ => {},
        }
    }
}

/// What a filtered list contains.
proof fn lemma_filter_contains(list: Seq<Address>, p: spec_fn(Address) -> bool, a: Address)
    requires
        p(a),
    ensures
        list.filter(p).contains(a) == list.contains(a),
{
    if list.contains(a) {
        list.lemma_filter_contains(p, list.index_of(a));
    }
    if list.filter(p).contains(a) {
        list.lemma_filter_contains_rev(p, a);
    }
}

// ----------------------------------------------------------------
//  The list
// ----------------------------------------------------------------

/// A deposit lists a depositor who was not listed, at the end; the list grows by one then, and
/// stays the same otherwise.
pub proof fn law_deposit_lists_the_depositor(s: VaultState, now: u64, call: Call)
    requires
        call is Deposit,
        call.fault(s, now) is None,
    ensures
        call.after(s, now).depositors == if s.depositors.contains(call.caller()) {
            s.depositors
        } else {
            s.depositors.push(call.caller())
        },
{
}

/// A payout takes the depositor off the list and clears the depositor's beneficiary. Unless it is
/// part of a batch, the list shrinks by one where the depositor was listed.
pub proof fn law_payout_unlists_and_clears(
    s: VaultState,
    now: u64,
    call: Call,
    depositor: Address,
    deposit_id: u32,
)
    requires
        validity::valid(s),
        locks::pays_out(call, s, depositor, deposit_id),
        call.fault(s, now) is None,
    ensures
        ({
            let t = call.after(s, now);
            &&& !t.depositors.contains(depositor)
            &&& t.beneficiaries.get(depositor) is None
            &&& !(call is BatchEmergencyWithdraw) ==> t.depositors.len() == s.depositors.len() - (
            if s.depositors.contains(depositor) {
                1int
            } else {
                0
            })
        }),
{
    if let Call::BatchEmergencyWithdraw { depositors, .. } = call {
        let spared = model::batch_spares(s, depositors);
        if s.depositors.filter(spared).contains(depositor) {
            let i = s.depositors.filter(spared).index_of(depositor);
            s.depositors.lemma_filter_pred(spared, i);
        }
    } else {
        validity::lemma_unlisted(s.depositors, depositor);
        lemma_unlisting_counts(s.depositors, depositor);
    }
}

proof fn lemma_unlisting_counts(list: Seq<Address>, depositor: Address)
    requires
        list.no_duplicates(),
    ensures
        list.filter(storage::other_than(depositor)).len() == list.len() - (if list.contains(
            depositor,
        ) {
            1int
        } else {
            0
        }),
    decreases list.len(),
{
    reveal(Seq::filter);
    if list.len() > 0 {
        let init = list.drop_last();
        assert(init.no_duplicates());
        lemma_unlisting_counts(init, depositor);
        if list.last() == depositor {
            assert(list[list.len() - 1] == depositor);
            if init.contains(depositor) {
                let i = init.index_of(depositor);
                assert(list[i] == depositor);
            }
        } else {
            if list.contains(depositor) {
                let i = list.index_of(depositor);
                assert(init[i] == depositor);
            }
            if init.contains(depositor) {
                let i = init.index_of(depositor);
                assert(list[i] == depositor);
            }
        }
    }
}

/// Two pages, the second from where the first was to end, make one longer page; a page that
/// starts at the front and is long enough is the whole list; and a page is as long as asked for,
/// unless the list ends before.
pub proof fn law_pages_join_up(all: Seq<Address>, offset: int, first: int, second: int)
    requires
        0 <= offset,
        0 <= first,
        0 <= second,
    ensures
        storage::depositors_page(all, offset, first) + storage::depositors_page(
            all,
            offset + first,
            second,
        ) == storage::depositors_page(all, offset, first + second),
        first >= all.len() ==> storage::depositors_page(all, 0, first) == all,
        offset + first <= all.len() ==> storage::depositors_page(all, offset, first).len() == first,
        offset >= all.len() ==> storage::depositors_page(all, offset, first).len() == 0,
{
    assert(storage::depositors_page(all, offset, first) + storage::depositors_page(
        all,
        offset + first,
        second,
    ) =~= storage::depositors_page(all, offset, first + second));
    if first >= all.len() {
        assert(storage::depositors_page(all, 0, first) =~= all);
    }
}

// ----------------------------------------------------------------
//  Beneficiaries
// ----------------------------------------------------------------

/// A beneficiary that was set is the one that withdrawals go to, and setting it changes nothing
/// else.
pub proof fn law_beneficiary_reads_back(
    s: VaultState,
    now: u64,
    depositor: Address,
    beneficiary: Address,
)
    ensures
        ({
            let t = (Call::SetBeneficiary { depositor, beneficiary }).after(s, now);
            &&& t.beneficiaries.get(depositor) == Some(beneficiary)
            &&& model::withdraw_recipient(t, depositor) == beneficiary
            &&& t == VaultState { beneficiaries: t.beneficiaries, ..s }
        }),
{
}

// ----------------------------------------------------------------
//  Batches
// ----------------------------------------------------------------

/// The emergency withdrawals of the first deposits of `depositors`, one by one.
pub open spec fn one_by_one(admin: Address, now: u64, depositors: Seq<Address>) -> Seq<Step> {
    Seq::new(
        depositors.len(),
        |i: int|
            Step {
                now,
                call: Call::EmergencyWithdraw {
                    admin,
                    depositor: depositors[i],
                    deposit_id: model::batch_id(),
                },
            },
    )
}

/// A batch does to the records, and to every balance, what the emergency withdrawals of the
/// depositors' first deposits do one by one; and it reports success for those of them that would
/// not be rejected.
pub proof fn law_batch_is_one_by_one(
    s: VaultState,
    contract: Address,
    now: u64,
    admin: Address,
    depositors: Seq<Address>,
)
    requires
        model::batch_emergency_withdraw_fault(s, admin, depositors) is None,
    ensures
        (Call::BatchEmergencyWithdraw { admin, depositors }).after(s, now) == calls::run(
            s,
            one_by_one(admin, now, depositors),
        ),
        forall|token: Address, holder: Address| #[trigger]
            funds::flow(
                (Call::BatchEmergencyWithdraw { admin, depositors }).effects(s, contract, now),
                token,
                holder,
            ) == funds::flow(
                calls::run_effects(s, contract, one_by_one(admin, now, depositors)),
                token,
                holder,
            ),
        forall|i: int|
            0 <= i < depositors.len() ==> {
                let before = calls::run(s, one_by_one(admin, now, depositors.take(i)));
                (#[trigger] model::batch_emergency_withdraw_results(s, depositors)[i]).success
                    <==> model::emergency_withdraw_fault(
                    before,
                    admin,
                    depositors[i],
                    model::batch_id(),
                ) is None
            },
{
    let batch = Call::BatchEmergencyWithdraw { admin, depositors };
    lemma_batch_runs_one_by_one(s, now, admin, depositors);
    assert forall|token: Address, holder: Address| #[trigger]
        funds::flow(batch.effects(s, contract, now), token, holder) == funds::flow(
            calls::run_effects(s, contract, one_by_one(admin, now, depositors)),
            token,
            holder,
        ) by {
        funds::lemma_call_flow(s, contract, now, batch, token, holder);
        lemma_batch_flows_one_by_one(s, contract, now, admin, depositors, token, holder);
    }
    assert forall|i: int| 0 <= i < depositors.len() implies {
        let before = calls::run(s, one_by_one(admin, now, depositors.take(i)));
        (#[trigger] model::batch_emergency_withdraw_results(s, depositors)[i]).success
            <==> model::emergency_withdraw_fault(
            before,
            admin,
            depositors[i],
            model::batch_id(),
        ) is None
    } by {
        lemma_batch_runs_one_by_one(s, now, admin, depositors.take(i));
    }
}

proof fn lemma_batch_runs_one_by_one(
    s: VaultState,
    now: u64,
    admin: Address,
    depositors: Seq<Address>,
)
    requires
        s.admin == Some(admin),
    ensures
        model::batch_emergency_withdraw_state(s, depositors) == calls::run(
            s,
            one_by_one(admin, now, depositors),
        ),
    decreases depositors.len(),
{
    if depositors.len() == 0 {
        assert(depositors =~= Seq::empty());
        model::lemma_batch_of_nobody(s);
    } else {
        let init = depositors.drop_last();
        lemma_batch_runs_one_by_one(s, now, admin, init);
        assert(depositors =~= init.push(depositors.last()));
        model::lemma_batch_step(s, init, depositors.last());
        assert(one_by_one(admin, now, depositors).drop_last() =~= one_by_one(admin, now, init));
    }
}

proof fn lemma_batch_flows_one_by_one(
    s: VaultState,
    contract: Address,
    now: u64,
    admin: Address,
    depositors: Seq<Address>,
    token: Address,
    holder: Address,
)
    requires
        s.admin == Some(admin),
    ensures
        funds::flow(
            model::batch_emergency_withdraw_effects(s, contract, admin, depositors),
            token,
            holder,
        ) == funds::flow(
            calls::run_effects(s, contract, one_by_one(admin, now, depositors)),
            token,
            holder,
        ),
    decreases depositors.len(),
{
    if depositors.len() > 0 {
        let init = depositors.drop_last();
        let last = depositors.last();
        let i = depositors.len() - 1;
        let steps = one_by_one(admin, now, depositors);
        let before = calls::run(s, steps.drop_last());
        let single = Call::EmergencyWithdraw {
            admin,
            depositor: last,
            deposit_id: model::batch_id(),
        };
        lemma_batch_flows_one_by_one(s, contract, now, admin, init, token, holder);
        lemma_batch_runs_one_by_one(s, now, admin, init);
        assert(steps.drop_last() =~= one_by_one(admin, now, init));
        assert(depositors.take(i) =~= init);
        funds::lemma_flow_adds_up(
            calls::run_effects(s, contract, steps.drop_last()),
            single.effects(before, contract, now),
            token,
            holder,
        );
        funds::lemma_flow_adds_up(
            model::batch_emergency_withdraw_effects(s, contract, admin, init),
            if model::batch_hit(s, depositors, i) {
                model::batch_item_effects(s, contract, admin, last)
            } else {
                Seq::empty()
            },
            token,
            holder,
        );
        if model::batch_hit(s, depositors, i) {
            funds::lemma_batch_item_flow(s, contract, admin, last, token, holder);
            funds::lemma_call_flow(before, contract, now, single, token, holder);
            funds::lemma_emergency_flow(
                before,
                contract,
                admin,
                last,
                model::batch_id(),
                token,
                holder,
            );
        } else {
            funds::lemma_rejected_call_flow(before, contract, now, single, token, holder);
        }
    }
}

} // verus!
