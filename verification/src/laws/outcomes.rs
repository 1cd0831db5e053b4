//! Laws of the outcomes: what an accepted call leaves behind, record by record, and what it asks
//! of the ledger, item by item.

use vstd::prelude::*;

use crate::env::{Effect, Env, Transfer};
use crate::errors::VaultError;
use crate::events::Event;
use crate::laws::calls::Call;
use crate::model;
use crate::storage::{BUMP_TARGET, Storage, VaultState};
use crate::storage;
use crate::types::{Address, DepositKey, VaultEntry, VaultKey, WithdrawResult};

verus! {

// ----------------------------------------------------------------
//  Answers and records
// ----------------------------------------------------------------

/// A call is answered with its fault, or with success where it has none. Without a fault it changes
/// the records as it says and asks for the caller's authorization and then for the rest; with a
/// fault the records stay and it asks for the authorization alone. What was asked for before stays
/// in front, and neither the vault's address nor the time changes.
pub proof fn law_calls_are_answered_as_decided(
    before: Env,
    after: Env,
    caller: Address,
    fault: Option<VaultError>,
    state: VaultState,
    effects: Seq<Effect>,
)
    ensures
        model::verdict(fault) is Ok <==> fault is None,
        fault matches Some(error) ==> model::verdict(fault) == Err::<(), VaultError>(error),
        model::answered(before, after, caller, fault, state, effects) <==> {
            &&& after.contract == before.contract
            &&& after.timestamp == before.timestamp
            &&& after.storage@ == if fault is None { state } else { before.storage@ }
            &&& after.effects@ == before.effects@.push(Effect::RequireAuth(caller)) + if fault
                is None {
                effects
            } else {
                Seq::empty()
            }
        },
{
    let asked = before.effects@.push(Effect::RequireAuth(caller));
    assert(before.effects@ + (seq![Effect::RequireAuth(caller)] + effects) =~= asked + effects);
    assert(before.effects@ + seq![Effect::RequireAuth(caller)] =~= asked + Seq::empty());
}

/// The contents of the records are what the records hold.
pub proof fn law_contents_are_what_is_held(records: Storage)
    ensures
        records@.admin == records.admin,
        records@.pending_admin == records.pending_admin,
        records@.initialized == records.initialized,
        records@.max_deposit == records.max_deposit,
        records@.max_lock_secs == records.max_lock_secs,
        records@.fee_recipient == records.fee_recipient,
        records@.next_ids == records.next_ids@,
        records@.deposits == records.deposits@,
        records@.depositors == records.depositors@,
        records@.beneficiaries == records.beneficiaries@,
{
}

/// A deposit is found under its depositor and its number, and the numbers start at zero. A new
/// vault holds nothing.
pub proof fn law_records_are_found(s: VaultState, depositor: Address, deposit_id: u32)
    ensures
        ({
            let key = DepositKey { depositor, deposit_id };
            let empty = VaultState::empty();
            &&& s.deposit(depositor, deposit_id) is Some <==> s.deposits.contains_key(key)
            &&& s.deposit(depositor, deposit_id) is Some ==> s.deposit(
                depositor,
                deposit_id,
            ).unwrap() == s.deposits[key]
            &&& s.next_ids.contains_key(depositor) ==> s.next_id(depositor)
                == s.next_ids[depositor]
            &&& !s.next_ids.contains_key(depositor) ==> s.next_id(depositor) == 0
            &&& !empty.deposits.contains_key(key)
            &&& !empty.next_ids.contains_key(depositor)
            &&& !empty.beneficiaries.contains_key(depositor)
            &&& empty.depositors.len() == 0
            &&& empty.admin is None && empty.pending_admin is None && empty.fee_recipient is None
            &&& empty.max_deposit is None && empty.max_lock_secs is None && !empty.initialized
        }),
{
}

/// Until an active deposit can be withdrawn there are exactly as many seconds left as to its unlock
/// time; afterwards, and where there is no deposit, there are none.
pub proof fn law_time_remaining_is_the_time_to_the_unlock_time(
    s: VaultState,
    now: u64,
    depositor: Address,
    deposit_id: u32,
)
    ensures
        ({
            let key = DepositKey { depositor, deposit_id };
            let left = model::time_remaining(s, now, depositor, deposit_id);
            &&& s.deposits.contains_key(key) && now <= s.deposits[key].unlock_time ==> now + left
                == s.deposits[key].unlock_time
            &&& s.deposits.contains_key(key) && now >= s.deposits[key].unlock_time ==> left == 0
            &&& !s.deposits.contains_key(key) ==> left == 0
        }),
{
}

/// Position `i` of a page is position `offset + i` of the list. The page is as long as asked for,
/// or reaches to the end of the list where that comes earlier.
pub proof fn law_pages_show_the_list(all: Seq<Address>, offset: int, limit: int)
    requires
        0 <= offset,
        0 <= limit,
    ensures
        ({
            let page = storage::depositors_page(all, offset, limit);
            &&& page.len() <= limit
            &&& offset >= all.len() ==> page.len() == 0
            &&& offset < all.len() ==> page.len() == limit || offset + page.len() == all.len()
            &&& forall|i: int| 0 <= i < page.len() ==> #[trigger] page[i] == all[offset + i]
        }),
{
}

// ----------------------------------------------------------------
//  Initialization
// ----------------------------------------------------------------

/// What an initialization leaves behind, and asks for.
pub proof fn law_what_initialize_does(
    s: VaultState,
    contract: Address,
    now: u64,
    admin: Address,
    max_deposit: Option<i128>,
    max_lock_secs: Option<u64>,
)
    requires
        (Call::Initialize { admin, max_deposit, max_lock_secs }).fault(s, now) is None,
    ensures
        ({
            let call = Call::Initialize { admin, max_deposit, max_lock_secs };
            let t = call.after(s, now);
            let asked = call.effects(s, contract, now);
            &&& t == (VaultState {
                admin: Some(admin),
                initialized: true,
                max_deposit: t.max_deposit,
                max_lock_secs: t.max_lock_secs,
                ..s
            })
            &&& t.max_deposit == if max_deposit is None { s.max_deposit } else { max_deposit }
            &&& t.max_lock_secs == if max_lock_secs is None {
                s.max_lock_secs
            } else {
                max_lock_secs
            }
            &&& asked.take(3) == seq![
                Effect::RequireAuth(admin),
                Effect::Store(VaultKey::Admin),
                Effect::Store(VaultKey::Initialized),
            ]
            &&& asked.skip(3) == match (max_deposit, max_lock_secs) {
                (None, None) => Seq::empty(),
                (Some(_), None) => seq![Effect::Store(VaultKey::MaxDeposit)],
                (None, Some(_)) => seq![Effect::Store(VaultKey::MaxLockSecs)],
                (Some(_), Some(_)) => seq![
                    Effect::Store(VaultKey::MaxDeposit),
                    Effect::Store(VaultKey::MaxLockSecs),
                ],
            }
        }),
{
}

// ----------------------------------------------------------------
//  Making and prolonging deposits
// ----------------------------------------------------------------

/// A deposit is paid in once and in full, is written as it was made under the depositor's next
/// number, and lists the depositor; nothing else changes.
pub proof fn law_what_deposit_does(
    s: VaultState,
    contract: Address,
    now: u64,
    depositor: Address,
    token: Address,
    amount: i128,
    unlock_time: u64,
    penalty_bps: u32,
)
    requires
        s.next_id(depositor) < u32::MAX,
        (Call::Deposit { depositor, token, amount, unlock_time, penalty_bps }).fault(s, now)
            is None,
    ensures
        ({
            let call = Call::Deposit { depositor, token, amount, unlock_time, penalty_bps };
            let id = s.next_id(depositor);
            let t = call.after(s, now);
            let record = VaultKey::Deposit(depositor, id);
            &&& t == (VaultState {
                next_ids: s.next_ids.insert(depositor, t.next_id(depositor)),
                deposits: s.deposits.insert(
                    DepositKey { depositor, deposit_id: id },
                    VaultEntry { token, amount, unlock_time, penalty_bps, beneficiary: None },
                ),
                depositors: t.depositors,
                ..s
            })
            &&& t.next_id(depositor) == id + 1
            &&& s.depositors.contains(depositor) ==> t.depositors == s.depositors
            &&& !s.depositors.contains(depositor) ==> t.depositors == s.depositors.push(depositor)
            &&& call.effects(s, contract, now) == seq![
                Effect::RequireAuth(depositor),
                Effect::Store(VaultKey::DepositCounter(depositor)),
                Effect::Transfer(Transfer { token, from: depositor, to: contract, amount }),
                Effect::Store(record),
                Effect::KeepAlive(record, BUMP_TARGET),
                Effect::Store(VaultKey::Depositors),
                Effect::Publish(Event::Deposit { depositor, token, amount, unlock_time }),
            ]
        }),
{
}

/// A renewal pays the top-up in, if there is one, adds it to the deposit, and moves the unlock
/// time; nothing else of the deposit changes, and nothing else in the vault. The event tells the
/// new total.
pub proof fn law_what_renew_deposit_does(
    s: VaultState,
    contract: Address,
    now: u64,
    depositor: Address,
    deposit_id: u32,
    additional_amount: i128,
    new_unlock_time: u64,
)
    requires
        (Call::RenewDeposit {
            depositor,
            deposit_id,
            additional_amount,
            new_unlock_time,
        }).fault(s, now) is None,
    ensures
        ({
            let call = Call::RenewDeposit {
                depositor,
                deposit_id,
                additional_amount,
                new_unlock_time,
            };
            let key = DepositKey { depositor, deposit_id };
            let record = VaultKey::Deposit(depositor, deposit_id);
            let old_entry = s.deposits[key];
            let t = call.after(s, now);
            let entry = t.deposits[key];
            let rest = seq![
                Effect::Store(record),
                Effect::KeepAlive(record, BUMP_TARGET),
                Effect::Publish(
                    Event::DepositRenewed {
                        depositor,
                        token: old_entry.token,
                        amount: entry.amount,
                        unlock_time: new_unlock_time,
                    },
                ),
            ];
            let top_up = Transfer {
                token: old_entry.token,
                from: depositor,
                to: contract,
                amount: additional_amount,
            };
            &&& t == (VaultState { deposits: s.deposits.insert(key, entry), ..s })
            &&& entry == (VaultEntry {
                amount: entry.amount,
                unlock_time: new_unlock_time,
                ..old_entry
            })
            &&& entry.amount == old_entry.amount + additional_amount
            &&& additional_amount == 0 ==> call.effects(s, contract, now) == seq![
                Effect::RequireAuth(depositor),
            ] + rest
            &&& additional_amount > 0 ==> call.effects(s, contract, now) == seq![
                Effect::RequireAuth(depositor),
                Effect::Transfer(top_up),
            ] + rest
        }),
{
}

/// An extension moves the unlock time of the deposit and changes nothing else. No money moves, and
/// the event tells the old and the new unlock time.
pub proof fn law_what_extend_lock_does(
    s: VaultState,
    contract: Address,
    now: u64,
    depositor: Address,
    deposit_id: u32,
    new_unlock_time: u64,
)
    requires
        (Call::ExtendLock { depositor, deposit_id, new_unlock_time }).fault(s, now) is None,
    ensures
        ({
            let call = Call::ExtendLock { depositor, deposit_id, new_unlock_time };
            let key = DepositKey { depositor, deposit_id };
            let record = VaultKey::Deposit(depositor, deposit_id);
            let old_entry = s.deposits[key];
            &&& call.after(s, now) == (VaultState {
                deposits: s.deposits.insert(
                    key,
                    VaultEntry { unlock_time: new_unlock_time, ..old_entry },
                ),
                ..s
            })
            &&& call.effects(s, contract, now) == seq![
                Effect::RequireAuth(depositor),
                Effect::Store(record),
                Effect::KeepAlive(record, BUMP_TARGET),
                Effect::Publish(
                    Event::LockExtended {
                        depositor,
                        deposit_id,
                        old_unlock_time: old_entry.unlock_time,
                        new_unlock_time,
                    },
                ),
            ]
        }),
{
}

// ----------------------------------------------------------------
//  Paying deposits out
// ----------------------------------------------------------------

/// Whether `t` is `s` without the deposit under `key`, and with its depositor neither listed nor
/// provided with a beneficiary; the others keep their order in the list.
pub open spec fn forgotten(s: VaultState, t: VaultState, key: DepositKey) -> bool {
    t == (VaultState {
        deposits: s.deposits.remove(key),
        depositors: s.depositors.filter(|a: Address| a != key.depositor),
        beneficiaries: s.beneficiaries.remove(key.depositor),
        ..s
    })
}

proof fn lemma_closed_is_forgotten(s: VaultState, key: DepositKey)
    ensures
        forgotten(s, model::closed_state(s, key.depositor, key.deposit_id), key),
{
    let others = |a: Address| a != key.depositor;
    assert(storage::other_than(key.depositor) =~= others);
}

/// A withdrawal forgets the deposit and then pays all of it to the beneficiary, or to the depositor
/// where there is none.
pub proof fn law_what_withdraw_does(
    s: VaultState,
    contract: Address,
    now: u64,
    depositor: Address,
    deposit_id: u32,
    recipient: Address,
)
    requires
        (Call::Withdraw { depositor, deposit_id }).fault(s, now) is None,
        s.beneficiaries.contains_key(depositor) ==> recipient == s.beneficiaries[depositor],
        !s.beneficiaries.contains_key(depositor) ==> recipient == depositor,
    ensures
        ({
            let call = Call::Withdraw { depositor, deposit_id };
            let key = DepositKey { depositor, deposit_id };
            let entry = s.deposits[key];
            &&& forgotten(s, call.after(s, now), key)
            &&& call.effects(s, contract, now) == seq![
                Effect::RequireAuth(depositor),
                Effect::Store(VaultKey::Deposit(depositor, deposit_id)),
                Effect::Store(VaultKey::Depositors),
                Effect::Store(VaultKey::Beneficiary(depositor)),
                Effect::Transfer(
                    Transfer {
                        token: entry.token,
                        from: contract,
                        to: recipient,
                        amount: entry.amount,
                    },
                ),
                Effect::Publish(
                    Event::Withdraw { depositor, token: entry.token, amount: entry.amount },
                ),
            ]
        }),
{
    lemma_closed_is_forgotten(s, DepositKey { depositor, deposit_id });
}

/// An emergency withdrawal forgets the deposit and then pays all of it to the depositor.
pub proof fn law_what_emergency_withdraw_does(
    s: VaultState,
    contract: Address,
    now: u64,
    admin: Address,
    depositor: Address,
    deposit_id: u32,
)
    requires
        (Call::EmergencyWithdraw { admin, depositor, deposit_id }).fault(s, now) is None,
    ensures
        ({
            let call = Call::EmergencyWithdraw { admin, depositor, deposit_id };
            let key = DepositKey { depositor, deposit_id };
            let entry = s.deposits[key];
            &&& forgotten(s, call.after(s, now), key)
            &&& call.effects(s, contract, now) == seq![
                Effect::RequireAuth(admin),
                Effect::Store(VaultKey::Deposit(depositor, deposit_id)),
                Effect::Store(VaultKey::Depositors),
                Effect::Store(VaultKey::Beneficiary(depositor)),
                Effect::Transfer(
                    Transfer {
                        token: entry.token,
                        from: contract,
                        to: depositor,
                        amount: entry.amount,
                    },
                ),
                Effect::Publish(
                    Event::EmergencyWithdraw {
                        admin,
                        depositor,
                        token: entry.token,
                        amount: entry.amount,
                        unlock_time: entry.unlock_time,
                    },
                ),
            ]
        }),
{
    lemma_closed_is_forgotten(s, DepositKey { depositor, deposit_id });
}

/// A cancellation forgets the deposit, pays the penalty to the fee recipient, or to the depositor
/// where there is none, and the rest to the depositor. The penalty is the whole number `fee` just
/// below, or at, the share that the rate asks for. A payment of nothing is left out.
pub proof fn law_what_cancel_deposit_does(
    s: VaultState,
    contract: Address,
    now: u64,
    depositor: Address,
    deposit_id: u32,
    recipient: Address,
    fee: i128,
)
    requires
        (Call::CancelDeposit { depositor, deposit_id }).fault(s, now) is None,
        (Call::CancelDeposit { depositor, deposit_id }).within_limits(s, now),
        s.fee_recipient matches Some(set) ==> recipient == set,
        s.fee_recipient is None ==> recipient == depositor,
        ({
            let entry = s.deposits[DepositKey { depositor, deposit_id }];
            10_000 * fee <= entry.amount * entry.penalty_bps < 10_000 * (fee + 1)
        }),
    ensures
        ({
            let call = Call::CancelDeposit { depositor, deposit_id };
            let key = DepositKey { depositor, deposit_id };
            let entry = s.deposits[key];
            let asked = call.effects(s, contract, now);
            let refund = entry.amount - fee;
            let to_recipient = Effect::Transfer(
                Transfer { token: entry.token, from: contract, to: recipient, amount: fee },
            );
            let to_depositor = Effect::Transfer(
                Transfer {
                    token: entry.token,
                    from: contract,
                    to: depositor,
                    amount: refund as i128,
                },
            );
            let told = Effect::Publish(
                Event::DepositCancelled {
                    depositor,
                    token: entry.token,
                    amount: entry.amount,
                    penalty: fee,
                },
            );
            &&& forgotten(s, call.after(s, now), key)
            &&& asked.take(4) == seq![
                Effect::RequireAuth(depositor),
                Effect::Store(VaultKey::Deposit(depositor, deposit_id)),
                Effect::Store(VaultKey::Depositors),
                Effect::Store(VaultKey::Beneficiary(depositor)),
            ]
            &&& fee > 0 && refund > 0 ==> asked.skip(4) == seq![to_recipient, to_depositor, told]
            &&& fee > 0 && refund <= 0 ==> asked.skip(4) == seq![to_recipient, told]
            &&& fee <= 0 && refund > 0 ==> asked.skip(4) == seq![to_depositor, told]
            &&& fee <= 0 && refund <= 0 ==> asked.skip(4) == seq![told]
        }),
{
    let key = DepositKey { depositor, deposit_id };
    let entry = s.deposits[key];
    lemma_closed_is_forgotten(s, key);
    let product = entry.amount * entry.penalty_bps;
    assert(product / 10_000 == fee);
    assert(model::penalty(entry) == fee);
}

// ----------------------------------------------------------------
//  Batches
// ----------------------------------------------------------------

/// Whether a batch that names `depositors` pays at position `i`: the depositor has a first deposit
/// and has not been named before.
pub open spec fn pays_at(s: VaultState, depositors: Seq<Address>, i: int) -> bool {
    &&& s.deposits.contains_key(DepositKey { depositor: depositors[i], deposit_id: 0 })
    &&& forall|j: int| 0 <= j < i ==> depositors[j] != depositors[i]
}

/// At how many positions before `n` the batch pays.
pub open spec fn payments_before(s: VaultState, depositors: Seq<Address>, n: int) -> int
    decreases n,
{
    if n <= 0 {
        0
    } else {
        payments_before(s, depositors, n - 1) + if pays_at(s, depositors, n - 1) {
            1int
        } else {
            0
        }
    }
}

/// The answer to a batch has one entry for each position, which names the depositor of that
/// position, and says whether the batch paid there. So every depositor that is named and has a
/// first deposit is reported as paid exactly once.
pub proof fn law_batch_reports_position_by_position(s: VaultState, depositors: Seq<Address>)
    ensures
        ({
            let results = model::batch_emergency_withdraw_results(s, depositors);
            &&& results.len() == depositors.len()
            &&& forall|i: int|
                0 <= i < depositors.len() ==> (#[trigger] results[i]).depositor == depositors[i]
            &&& forall|i: int|
                0 <= i < depositors.len() ==> ((#[trigger] results[i]).success <==> pays_at(
                    s,
                    depositors,
                    i,
                ))
        }),
{
    let results = model::batch_emergency_withdraw_results(s, depositors);
    assert forall|i: int| 0 <= i < depositors.len() implies ((#[trigger] results[i]).success
        <==> pays_at(s, depositors, i)) by {
        lemma_hits_are_payments(s, depositors, i);
    }
}

/// The depositors of a batch's answer, read off in order, are the ones that were named.
pub proof fn law_batch_reports_on_those_named(s: VaultState, depositors: Seq<Address>)
    ensures
        model::batch_emergency_withdraw_results(s, depositors).map_values(
            |result: WithdrawResult| result.depositor,
        ) == depositors,
{
    law_batch_reports_position_by_position(s, depositors);
    assert(model::batch_emergency_withdraw_results(s, depositors).map_values(
        |result: WithdrawResult| result.depositor,
    ) =~= depositors);
}

proof fn lemma_hits_are_payments(s: VaultState, depositors: Seq<Address>, i: int)
    requires
        0 <= i < depositors.len(),
    ensures
        model::batch_hit(s, depositors, i) <==> pays_at(s, depositors, i),
{
    let earlier = depositors.take(i);
    if earlier.contains(depositors[i]) {
        let j = earlier.index_of(depositors[i]);
        assert(depositors[j] == depositors[i]);
    } else {
        assert forall|j: int| 0 <= j < i implies depositors[j] != depositors[i] by {
            assert(earlier[j] == depositors[j]);
        }
    }
}

/// A batch removes the first deposits of those that it names, and no other deposit. Those whose
/// deposits it returned are no longer listed and have no beneficiary any more; the others are
/// listed as before, in the same order, and keep their beneficiaries.
pub proof fn law_what_batch_emergency_withdraw_leaves(
    s: VaultState,
    now: u64,
    admin: Address,
    depositors: Seq<Address>,
)
    requires
        (Call::BatchEmergencyWithdraw { admin, depositors }).fault(s, now) is None,
    ensures
        ({
            let t = (Call::BatchEmergencyWithdraw { admin, depositors }).after(s, now);
            let paid = |a: Address|
                depositors.contains(a) && s.deposits.contains_key(
                    DepositKey { depositor: a, deposit_id: 0 },
                );
            &&& t == (VaultState {
                deposits: t.deposits,
                depositors: t.depositors,
                beneficiaries: t.beneficiaries,
                ..s
            })
            &&& forall|key: DepositKey| #[trigger]
                t.deposits.get(key) == if key.deposit_id == 0 && depositors.contains(
                    key.depositor,
                ) {
                    None
                } else {
                    s.deposits.get(key)
                }
            &&& forall|a: Address| #[trigger]
                t.beneficiaries.get(a) == if paid(a) {
                    None
                } else {
                    s.beneficiaries.get(a)
                }
            &&& t.depositors == s.depositors.filter(|a: Address| !paid(a))
        }),
{
    let paid = |a: Address|
        depositors.contains(a) && s.deposits.contains_key(
            DepositKey { depositor: a, deposit_id: 0 },
        );
    let spared = |a: Address| !paid(a);
    assert(model::batch_spares(s, depositors) =~= spared);
}

/// Whether `asked` holds, from position `at` on, what it takes to return the first deposit of
/// `depositor`: the three records are written, the whole deposit is paid to the depositor, and the
/// event tells of it.
pub open spec fn returned_at(
    asked: Seq<Effect>,
    at: int,
    s: VaultState,
    contract: Address,
    admin: Address,
    depositor: Address,
) -> bool {
    let entry = s.deposits[DepositKey { depositor, deposit_id: 0 }];
    &&& asked[at] == Effect::Store(VaultKey::Deposit(depositor, 0))
    &&& asked[at + 1] == Effect::Store(VaultKey::Depositors)
    &&& asked[at + 2] == Effect::Store(VaultKey::Beneficiary(depositor))
    &&& asked[at + 3] == Effect::Transfer(
        Transfer { token: entry.token, from: contract, to: depositor, amount: entry.amount },
    )
    &&& asked[at + 4] == Effect::Publish(
        Event::BatchEmergencyWithdrawItem {
            admin,
            depositor,
            token: entry.token,
            amount: entry.amount,
            unlock_time: entry.unlock_time,
        },
    )
}

/// A batch asks for the administrator's authorization and then, position by position, for the
/// return of the deposits that it pays, and for nothing else.
pub proof fn law_what_batch_emergency_withdraw_asks(
    s: VaultState,
    contract: Address,
    now: u64,
    admin: Address,
    depositors: Seq<Address>,
)
    requires
        (Call::BatchEmergencyWithdraw { admin, depositors }).fault(s, now) is None,
    ensures
        ({
            let asked = (Call::BatchEmergencyWithdraw { admin, depositors }).effects(
                s,
                contract,
                now,
            );
            &&& asked.len() == 1 + 5 * payments_before(s, depositors, depositors.len() as int)
            &&& asked[0] == Effect::RequireAuth(admin)
            &&& forall|i: int|
                0 <= i < depositors.len() && #[trigger] pays_at(s, depositors, i) ==> returned_at(
                    asked,
                    1 + 5 * payments_before(s, depositors, i),
                    s,
                    contract,
                    admin,
                    depositors[i],
                )
        }),
{
    let call = Call::BatchEmergencyWithdraw { admin, depositors };
    let asked = call.effects(s, contract, now);
    let items = model::batch_emergency_withdraw_effects(s, contract, admin, depositors);
    let n = depositors.len() as int;
    lemma_batch_items(s, contract, admin, depositors, n);
    assert(depositors.take(n) =~= depositors);
    assert(asked =~= seq![Effect::RequireAuth(admin)] + items);
    assert forall|i: int|
        0 <= i < depositors.len() && #[trigger] pays_at(s, depositors, i) implies returned_at(
        asked,
        1 + 5 * payments_before(s, depositors, i),
        s,
        contract,
        admin,
        depositors[i],
    ) by {
        let at = 5 * payments_before(s, depositors, i);
        lemma_payments_grow(s, depositors, i, n);
        assert(returned_at(items, at, s, contract, admin, depositors[i]));
    }
}

proof fn lemma_payments_grow(s: VaultState, depositors: Seq<Address>, i: int, n: int)
    requires
        0 <= i <= n,
    ensures
        0 <= payments_before(s, depositors, i) <= payments_before(s, depositors, n),
        i < n && pays_at(s, depositors, i) ==> payments_before(s, depositors, i)
            < payments_before(s, depositors, n),
    decreases n,
{
    if i < n {
        lemma_payments_grow(s, depositors, i, n - 1);
    } else if n > 0 {
        lemma_payments_grow(s, depositors, n - 1, n - 1);
    }
}

proof fn lemma_batch_items(
    s: VaultState,
    contract: Address,
    admin: Address,
    depositors: Seq<Address>,
    n: int,
)
    requires
        0 <= n <= depositors.len(),
    ensures
        ({
            let items = model::batch_emergency_withdraw_effects(
                s,
                contract,
                admin,
                depositors.take(n),
            );
            &&& items.len() == 5 * payments_before(s, depositors, n)
            &&& forall|i: int|
                0 <= i < n && #[trigger] pays_at(s, depositors, i) ==> returned_at(
                    items,
                    5 * payments_before(s, depositors, i),
                    s,
                    contract,
                    admin,
                    depositors[i],
                )
        }),
    decreases n,
{
    if n > 0 {
        let named = depositors.take(n);
        let earlier = depositors.take(n - 1);
        let before = model::batch_emergency_withdraw_effects(s, contract, admin, earlier);
        let items = model::batch_emergency_withdraw_effects(s, contract, admin, named);
        lemma_batch_items(s, contract, admin, depositors, n - 1);
        assert(named.drop_last() =~= earlier);
        assert(named.take(n - 1) =~= earlier);
        assert(depositors.take(n - 1) == earlier);
        assert(named[n - 1] == depositors[n - 1]);
        lemma_hits_are_payments(s, depositors, n - 1);
        assert(model::batch_hit(s, named, n - 1) == model::batch_hit(s, depositors, n - 1));
        let item = model::batch_item_effects(s, contract, admin, depositors[n - 1]);
        if pays_at(s, depositors, n - 1) {
            assert(items =~= before + item);
        } else {
            assert(items =~= before);
        }
        assert forall|i: int| 0 <= i < n && #[trigger] pays_at(s, depositors, i) implies returned_at(
            items,
            5 * payments_before(s, depositors, i),
            s,
            contract,
            admin,
            depositors[i],
        ) by {
            let at = 5 * payments_before(s, depositors, i);
            if i < n - 1 {
                lemma_payments_grow(s, depositors, i, n - 1);
                assert(returned_at(before, at, s, contract, admin, depositors[i]));
            }
        }
    }
}

// ----------------------------------------------------------------
//  Beneficiaries and the administrator
// ----------------------------------------------------------------

/// Naming a beneficiary replaces the depositor's beneficiary and does nothing else.
pub proof fn law_what_set_beneficiary_does(
    s: VaultState,
    contract: Address,
    now: u64,
    depositor: Address,
    beneficiary: Address,
)
    ensures
        ({
            let call = Call::SetBeneficiary { depositor, beneficiary };
            &&& call.after(s, now) == (VaultState {
                beneficiaries: s.beneficiaries.insert(depositor, beneficiary),
                ..s
            })
            &&& call.effects(s, contract, now) == seq![
                Effect::RequireAuth(depositor),
                Effect::Store(VaultKey::Beneficiary(depositor)),
            ]
        }),
{
}

/// A proposal, its acceptance, its withdrawal and the renunciation of the role change who is, and
/// who may become, the administrator, and nothing else. Each tells of itself.
pub proof fn law_what_calls_on_the_role_do(
    s: VaultState,
    contract: Address,
    now: u64,
    admin: Address,
    new_admin: Address,
)
    ensures
        ({
            let propose = Call::TransferAdmin { admin, new_admin };
            let accept = Call::AcceptAdmin { new_admin };
            let take_back = Call::CancelTransferAdmin { admin };
            let renounce = Call::RenounceAdmin { admin };
            &&& propose.fault(s, now) is None ==> {
                &&& propose.after(s, now) == (VaultState { pending_admin: Some(new_admin), ..s })
                &&& propose.effects(s, contract, now) == seq![
                    Effect::RequireAuth(admin),
                    Effect::Store(VaultKey::PendingAdmin),
                    Effect::Publish(Event::AdminTransferInitiated { admin, new_admin }),
                ]
            }
            &&& accept.fault(s, now) is None ==> {
                &&& accept.after(s, now) == (VaultState {
                    admin: Some(new_admin),
                    pending_admin: None,
                    ..s
                })
                &&& accept.effects(s, contract, now) == seq![
                    Effect::RequireAuth(new_admin),
                    Effect::Store(VaultKey::Admin),
                    Effect::Store(VaultKey::PendingAdmin),
                    Effect::Publish(Event::AdminTransferAccepted { new_admin }),
                ]
            }
            &&& take_back.fault(s, now) is None ==> {
                &&& take_back.after(s, now) == (VaultState { pending_admin: None, ..s })
                &&& take_back.effects(s, contract, now) == seq![
                    Effect::RequireAuth(admin),
                    Effect::Store(VaultKey::PendingAdmin),
                    Effect::Publish(Event::AdminTransferCancelled { admin }),
                ]
            }
            &&& renounce.fault(s, now) is None ==> {
                &&& renounce.after(s, now) == (VaultState {
                    admin: None,
                    pending_admin: None,
                    ..s
                })
                &&& renounce.effects(s, contract, now) == seq![
                    Effect::RequireAuth(admin),
                    Effect::Store(VaultKey::Admin),
                    Effect::Store(VaultKey::PendingAdmin),
                    Effect::Publish(Event::AdminRenounced { admin }),
                ]
            }
        }),
{
}

} // verus!
