//! What the calls ask for in detail, the edges of what they accept, and the vault's laws on
//! concrete values.

use time_lock_vault::constants::{
    MAX_BATCH_SIZE, MAX_DEPOSIT_AMOUNT, MAX_LOCK_DURATION_SECS, MIN_LOCK_DURATION_SECS,
};
use time_lock_vault::contract::TimeLockVault;
use time_lock_vault::env::{Effect, Env, Transfer};
use time_lock_vault::errors::VaultError;
use time_lock_vault::events::{Datum, Event};
use time_lock_vault::storage::BUMP_TARGET;
use time_lock_vault::table::Table;
use time_lock_vault::types::{
    Address, AddressKind, DepositKey, VaultEntry, VaultKey, WithdrawResult,
};

const NOW: u64 = 1_000;

fn account(low: u128) -> Address {
    Address { kind: AddressKind::Account, high: 1, low }
}

fn contract() -> Address {
    Address { kind: AddressKind::Contract, high: 9, low: 9 }
}

fn admin() -> Address {
    account(1)
}

fn alice() -> Address {
    account(2)
}

fn bob() -> Address {
    account(3)
}

fn carol() -> Address {
    account(4)
}

fn token() -> Address {
    Address { kind: AddressKind::Contract, high: 5, low: 5 }
}

fn other_token() -> Address {
    Address { kind: AddressKind::Contract, high: 5, low: 6 }
}

/// An initialized vault at the time `NOW`.
fn vault() -> Env {
    vault_with_limits(None, None)
}

fn vault_with_limits(max_deposit: Option<i128>, max_lock_secs: Option<u64>) -> Env {
    let mut env = Env::new(contract(), NOW);
    TimeLockVault::initialize(&mut env, admin(), max_deposit, max_lock_secs).unwrap();
    env.effects.clear();
    env
}

/// A deposit of `depositor` for an hour.
fn deposit(env: &mut Env, depositor: Address, amount: i128, penalty_bps: u32) {
    let unlock_time = env.timestamp + 3600;
    TimeLockVault::deposit(env, depositor, token(), amount, unlock_time, penalty_bps).unwrap();
    env.effects.clear();
}

fn transfer(token: Address, from: Address, to: Address, amount: i128) -> Effect {
    Effect::Transfer(Transfer { token, from, to, amount })
}

/// By how much the effects change a balance.
fn flow(effects: &[Effect], token: Address, holder: Address) -> i128 {
    let mut sum = 0;
    for effect in effects {
        if let Effect::Transfer(t) = effect {
            if t.token == token && t.to == holder {
                sum += t.amount;
            }
            if t.token == token && t.from == holder {
                sum -= t.amount;
            }
        }
    }
    sum
}

// ================================================================
//  Initialization and limits
// ================================================================

#[test]
fn initialize_asks_for_its_writes_in_order() {
    let mut env = Env::new(contract(), NOW);
    assert_eq!(TimeLockVault::initialize(&mut env, admin(), Some(7), Some(90)), Ok(()));
    assert_eq!(
        env.effects,
        vec![
            Effect::RequireAuth(admin()),
            Effect::Store(VaultKey::Admin),
            Effect::Store(VaultKey::Initialized),
            Effect::Store(VaultKey::MaxDeposit),
            Effect::Store(VaultKey::MaxLockSecs),
        ]
    );
    assert_eq!(TimeLockVault::get_constants(&env), (7, 90));
    assert!(TimeLockVault::is_admin(&env, admin()));
    assert!(!TimeLockVault::is_admin(&env, alice()));
}

#[test]
fn rejected_initialization_leaves_no_trace() {
    let mut env = Env::new(contract(), NOW);
    assert_eq!(
        TimeLockVault::initialize(&mut env, admin(), Some(-1), None),
        Err(VaultError::InvalidAmount)
    );
    assert_eq!(
        TimeLockVault::initialize(&mut env, admin(), Some(5), Some(0)),
        Err(VaultError::LockDurationTooLong)
    );
    assert!(!TimeLockVault::is_initialized(&env));
    assert_eq!(TimeLockVault::get_admin(&env), None);
    assert_eq!(
        TimeLockVault::get_constants(&env),
        (MAX_DEPOSIT_AMOUNT, MAX_LOCK_DURATION_SECS)
    );
    assert_eq!(env.effects, vec![Effect::RequireAuth(admin()), Effect::RequireAuth(admin())]);
}

#[test]
fn initialized_vault_keeps_its_limits() {
    let mut env = vault_with_limits(Some(500), Some(7_200));
    assert_eq!(
        TimeLockVault::initialize(&mut env, bob(), Some(0), Some(0)),
        Err(VaultError::AlreadyInitialized)
    );
    assert_eq!(TimeLockVault::get_constants(&env), (500, 7_200));
    assert_eq!(TimeLockVault::get_admin(&env), Some(admin()));
}

#[test]
fn deposits_are_possible_before_the_initialization() {
    let mut env = Env::new(contract(), NOW);
    assert_eq!(
        TimeLockVault::deposit(&mut env, alice(), token(), 10, NOW + 3600, 0),
        Ok(())
    );
    assert!(TimeLockVault::has_deposit(&env, alice(), 0));
}

// ================================================================
//  Making and prolonging deposits
// ================================================================

#[test]
fn deposit_asks_for_its_effects_in_order() {
    let mut env = vault();
    TimeLockVault::deposit(&mut env, alice(), token(), 1_000, NOW + 3600, 25).unwrap();
    assert_eq!(
        env.effects,
        vec![
            Effect::RequireAuth(alice()),
            Effect::Store(VaultKey::DepositCounter(alice())),
            transfer(token(), alice(), contract(), 1_000),
            Effect::Store(VaultKey::Deposit(alice(), 0)),
            Effect::KeepAlive(VaultKey::Deposit(alice(), 0), BUMP_TARGET),
            Effect::Store(VaultKey::Depositors),
            Effect::Publish(Event::Deposit {
                depositor: alice(),
                token: token(),
                amount: 1_000,
                unlock_time: NOW + 3600,
            }),
        ]
    );
    assert_eq!(
        TimeLockVault::get_vault(&env, alice(), 0),
        Some(VaultEntry {
            token: token(),
            amount: 1_000,
            unlock_time: NOW + 3600,
            penalty_bps: 25,
            beneficiary: None,
        })
    );
}

#[test]
fn rejected_deposit_asks_for_the_authorization_only() {
    let mut env = vault();
    assert_eq!(
        TimeLockVault::deposit(&mut env, alice(), token(), 0, NOW + 3600, 0),
        Err(VaultError::InvalidAmount)
    );
    assert_eq!(env.effects, vec![Effect::RequireAuth(alice())]);
    assert!(!TimeLockVault::has_deposit(&env, alice(), 0));
    assert_eq!(TimeLockVault::get_depositor_count(&env), 0);
    deposit(&mut env, alice(), 5, 0);
    assert!(TimeLockVault::has_deposit(&env, alice(), 0));
}

#[test]
fn shortest_lock_is_a_minute() {
    let mut env = vault();
    let unlock_time = NOW + MIN_LOCK_DURATION_SECS;
    assert_eq!(
        TimeLockVault::deposit(&mut env, alice(), token(), 10, unlock_time - 1, 0),
        Err(VaultError::LockDurationTooShort)
    );
    assert_eq!(
        TimeLockVault::deposit(&mut env, alice(), token(), 10, unlock_time, 0),
        Ok(())
    );
}

#[test]
fn too_long_is_found_before_too_short() {
    let mut env = vault_with_limits(None, Some(30));
    assert_eq!(
        TimeLockVault::deposit(&mut env, alice(), token(), 10, NOW + 40, 0),
        Err(VaultError::LockDurationTooLong)
    );
    assert_eq!(
        TimeLockVault::deposit(&mut env, alice(), token(), 10, NOW + 30, 0),
        Err(VaultError::LockDurationTooShort)
    );
}

#[test]
fn highest_penalty_rate_is_the_whole() {
    let mut env = vault();
    assert_eq!(
        TimeLockVault::deposit(&mut env, alice(), token(), 10, NOW + 3600, 10_000),
        Ok(())
    );
}

#[test]
fn amount_is_checked_before_the_rate_and_the_time() {
    let mut env = vault();
    assert_eq!(
        TimeLockVault::deposit(&mut env, alice(), token(), MAX_DEPOSIT_AMOUNT + 1, 0, 10_001),
        Err(VaultError::AmountTooLarge)
    );
    assert_eq!(
        TimeLockVault::deposit(&mut env, alice(), token(), 1, 0, 10_001),
        Err(VaultError::InvalidPenaltyBps)
    );
}

#[test]
fn taken_deposit_number_is_refused() {
    let mut env = vault();
    let entry = VaultEntry {
        token: token(),
        amount: 1,
        unlock_time: NOW,
        penalty_bps: 0,
        beneficiary: None,
    };
    env.storage.deposits.set(DepositKey { depositor: alice(), deposit_id: 0 }, entry);
    assert_eq!(
        TimeLockVault::deposit(&mut env, alice(), token(), 10, NOW + 3600, 0),
        Err(VaultError::DepositAlreadyExists)
    );
    assert_eq!(TimeLockVault::get_vault(&env, alice(), 0), Some(entry));
}

#[test]
fn deposits_are_numbered_per_depositor_and_numbers_are_not_reused() {
    let mut env = vault();
    deposit(&mut env, alice(), 10, 0);
    deposit(&mut env, alice(), 20, 0);
    deposit(&mut env, bob(), 30, 0);
    TimeLockVault::cancel_deposit(&mut env, alice(), 1).unwrap();
    deposit(&mut env, alice(), 40, 0);
    assert_eq!(TimeLockVault::get_vault(&env, alice(), 0).unwrap().amount, 10);
    assert_eq!(TimeLockVault::get_vault(&env, alice(), 1), None);
    assert_eq!(TimeLockVault::get_vault(&env, alice(), 2).unwrap().amount, 40);
    assert_eq!(TimeLockVault::get_vault(&env, bob(), 0).unwrap().amount, 30);
}

#[test]
fn next_number_counts_the_accepted_deposits() {
    let mut env = vault();
    deposit(&mut env, alice(), 10, 0);
    TimeLockVault::deposit(&mut env, alice(), token(), 0, NOW + 3600, 0).unwrap_err();
    deposit(&mut env, bob(), 30, 0);
    TimeLockVault::cancel_deposit(&mut env, alice(), 0).unwrap();
    deposit(&mut env, alice(), 20, 0);
    assert_eq!(env.storage.next_ids.get(alice()), Some(2));
    assert_eq!(env.storage.next_ids.get(bob()), Some(1));
    assert_eq!(env.storage.next_ids.get(carol()), None);
}

#[test]
fn top_up_is_paid_in_before_the_deposit_is_written() {
    let mut env = vault();
    deposit(&mut env, alice(), 1_000, 0);
    TimeLockVault::renew_deposit(&mut env, alice(), 0, 500, NOW + 9_000).unwrap();
    assert_eq!(
        env.effects,
        vec![
            Effect::RequireAuth(alice()),
            transfer(token(), alice(), contract(), 500),
            Effect::Store(VaultKey::Deposit(alice(), 0)),
            Effect::KeepAlive(VaultKey::Deposit(alice(), 0), BUMP_TARGET),
            Effect::Publish(Event::DepositRenewed {
                depositor: alice(),
                token: token(),
                amount: 1_500,
                unlock_time: NOW + 9_000,
            }),
        ]
    );
}

#[test]
fn renewal_without_top_up_extends_the_lock() {
    let mut renewed = vault();
    deposit(&mut renewed, alice(), 1_000, 0);
    TimeLockVault::renew_deposit(&mut renewed, alice(), 0, 0, NOW + 9_000).unwrap();
    let mut extended = vault();
    deposit(&mut extended, alice(), 1_000, 0);
    TimeLockVault::extend_lock(&mut extended, alice(), 0, NOW + 9_000).unwrap();
    assert_eq!(
        TimeLockVault::get_vault(&renewed, alice(), 0),
        TimeLockVault::get_vault(&extended, alice(), 0)
    );
    assert_eq!(flow(&renewed.effects, token(), alice()), 0);
}

#[test]
fn renewal_is_refused_for_a_negative_top_up_and_beyond_the_limits() {
    let mut env = vault_with_limits(Some(1_200), Some(10_000));
    deposit(&mut env, alice(), 1_000, 0);
    assert_eq!(
        TimeLockVault::renew_deposit(&mut env, alice(), 0, -1, NOW + 9_000),
        Err(VaultError::InvalidAmount)
    );
    assert_eq!(
        TimeLockVault::renew_deposit(&mut env, alice(), 0, 0, NOW + 10_001),
        Err(VaultError::LockDurationTooLong)
    );
    assert_eq!(
        TimeLockVault::renew_deposit(&mut env, alice(), 0, 201, NOW + 9_000),
        Err(VaultError::AmountTooLarge)
    );
    assert_eq!(
        TimeLockVault::renew_deposit(&mut env, alice(), 0, i128::MAX, NOW + 9_000),
        Err(VaultError::AmountTooLarge)
    );
    assert_eq!(
        TimeLockVault::renew_deposit(&mut env, alice(), 0, 200, NOW + 10_000),
        Ok(())
    );
}

#[test]
fn renewed_total_is_bounded_even_where_the_vault_allows_more() {
    let mut env = vault_with_limits(Some(2 * MAX_DEPOSIT_AMOUNT), None);
    deposit(&mut env, alice(), MAX_DEPOSIT_AMOUNT - 1, 0);
    assert_eq!(
        TimeLockVault::renew_deposit(&mut env, alice(), 0, 2, NOW + 3600),
        Err(VaultError::AmountTooLarge)
    );
    assert_eq!(
        TimeLockVault::renew_deposit(&mut env, alice(), 0, 1, NOW + 3600),
        Ok(())
    );
}

#[test]
fn extension_asks_for_its_effects_in_order() {
    let mut env = vault();
    deposit(&mut env, alice(), 1_000, 0);
    TimeLockVault::extend_lock(&mut env, alice(), 0, NOW + 9_000).unwrap();
    assert_eq!(
        env.effects,
        vec![
            Effect::RequireAuth(alice()),
            Effect::Store(VaultKey::Deposit(alice(), 0)),
            Effect::KeepAlive(VaultKey::Deposit(alice(), 0), BUMP_TARGET),
            Effect::Publish(Event::LockExtended {
                depositor: alice(),
                deposit_id: 0,
                old_unlock_time: NOW + 3600,
                new_unlock_time: NOW + 9_000,
            }),
        ]
    );
}

#[test]
fn lock_can_be_extended_after_it_ran_out() {
    let mut env = vault();
    deposit(&mut env, alice(), 1_000, 0);
    env.timestamp = NOW + 5_000;
    assert_eq!(TimeLockVault::extend_lock(&mut env, alice(), 0, NOW + 4_000), Ok(()));
    assert_eq!(TimeLockVault::extend_lock(&mut env, alice(), 0, NOW + 6_000), Ok(()));
    assert_eq!(
        TimeLockVault::withdraw(&mut env, alice(), 0),
        Err(VaultError::FundsStillLocked)
    );
}

// ================================================================
//  Paying deposits out
// ================================================================

#[test]
fn withdrawal_forgets_the_deposit_before_it_pays() {
    let mut env = vault();
    deposit(&mut env, alice(), 1_000, 0);
    TimeLockVault::set_beneficiary(&mut env, alice(), bob()).unwrap();
    env.effects.clear();
    env.timestamp = NOW + 3600;
    TimeLockVault::withdraw(&mut env, alice(), 0).unwrap();
    assert_eq!(
        env.effects,
        vec![
            Effect::RequireAuth(alice()),
            Effect::Store(VaultKey::Deposit(alice(), 0)),
            Effect::Store(VaultKey::Depositors),
            Effect::Store(VaultKey::Beneficiary(alice())),
            transfer(token(), contract(), bob(), 1_000),
            Effect::Publish(Event::Withdraw {
                depositor: alice(),
                token: token(),
                amount: 1_000,
            }),
        ]
    );
}

#[test]
fn deposit_and_withdrawal_cancel_out() {
    let mut env = vault();
    TimeLockVault::deposit(&mut env, alice(), token(), 1_234, NOW + 100, 0).unwrap();
    env.timestamp = NOW + 100;
    TimeLockVault::withdraw(&mut env, alice(), 0).unwrap();
    assert_eq!(flow(&env.effects, token(), alice()), 0);
    assert_eq!(flow(&env.effects, token(), contract()), 0);
}

#[test]
fn cancellation_splits_the_deposit() {
    let mut env = vault();
    env.storage.fee_recipient = Some(carol());
    assert_eq!(TimeLockVault::get_fee_recipient(&env), Some(carol()));
    deposit(&mut env, alice(), 1_000, 500);
    TimeLockVault::cancel_deposit(&mut env, alice(), 0).unwrap();
    assert_eq!(
        env.effects,
        vec![
            Effect::RequireAuth(alice()),
            Effect::Store(VaultKey::Deposit(alice(), 0)),
            Effect::Store(VaultKey::Depositors),
            Effect::Store(VaultKey::Beneficiary(alice())),
            transfer(token(), contract(), carol(), 50),
            transfer(token(), contract(), alice(), 950),
            Effect::Publish(Event::DepositCancelled {
                depositor: alice(),
                token: token(),
                amount: 1_000,
                penalty: 50,
            }),
        ]
    );
}

#[test]
fn penalty_is_rounded_down() {
    for (amount, bps, penalty) in [
        (999_i128, 1_u32, 0_i128),
        (9_999, 1, 0),
        (10_000, 1, 1),
        (333, 333, 11),
        (1, 9_999, 0),
        (1, 10_000, 1),
        (7, 10_000, 7),
    ] {
        let mut env = vault();
        env.storage.fee_recipient = Some(carol());
        deposit(&mut env, alice(), amount, bps);
        TimeLockVault::cancel_deposit(&mut env, alice(), 0).unwrap();
        assert_eq!(flow(&env.effects, token(), carol()), penalty);
        assert_eq!(flow(&env.effects, token(), alice()), amount - penalty);
        assert_eq!(flow(&env.effects, token(), contract()), -amount);
    }
}

#[test]
fn nothing_is_transferred_where_nothing_is_due() {
    let mut env = vault();
    env.storage.fee_recipient = Some(carol());
    deposit(&mut env, alice(), 1_000, 10_000);
    TimeLockVault::cancel_deposit(&mut env, alice(), 0).unwrap();
    assert_eq!(env.effects.len(), 6);
    assert_eq!(env.effects[4], transfer(token(), contract(), carol(), 1_000));
    env.effects.clear();
    deposit(&mut env, alice(), 1_000, 0);
    TimeLockVault::cancel_deposit(&mut env, alice(), 1).unwrap();
    assert_eq!(env.effects.len(), 6);
    assert_eq!(env.effects[4], transfer(token(), contract(), alice(), 1_000));
}

#[test]
fn penalty_goes_back_to_the_depositor_where_no_fee_recipient_is_set() {
    let mut env = vault();
    assert_eq!(TimeLockVault::get_fee_recipient(&env), None);
    deposit(&mut env, alice(), 1_000, 500);
    TimeLockVault::cancel_deposit(&mut env, alice(), 0).unwrap();
    assert_eq!(env.effects[4], transfer(token(), contract(), alice(), 50));
    assert_eq!(env.effects[5], transfer(token(), contract(), alice(), 950));
}

#[test]
fn largest_computable_penalty() {
    let amount = i128::MAX / 10_000;
    let mut env = vault_with_limits(Some(i128::MAX), None);
    env.storage.fee_recipient = Some(carol());
    deposit(&mut env, alice(), amount, 10_000);
    TimeLockVault::cancel_deposit(&mut env, alice(), 0).unwrap();
    assert_eq!(flow(&env.effects, token(), carol()), amount);
}

#[test]
fn beneficiary_gets_nothing_of_a_cancelled_or_returned_deposit() {
    let mut env = vault();
    deposit(&mut env, alice(), 1_000, 0);
    deposit(&mut env, alice(), 500, 0);
    TimeLockVault::set_beneficiary(&mut env, alice(), bob()).unwrap();
    TimeLockVault::cancel_deposit(&mut env, alice(), 0).unwrap();
    assert_eq!(TimeLockVault::get_beneficiary(&env, alice()), None);
    TimeLockVault::set_beneficiary(&mut env, alice(), bob()).unwrap();
    TimeLockVault::emergency_withdraw(&mut env, admin(), alice(), 1).unwrap();
    assert_eq!(TimeLockVault::get_beneficiary(&env, alice()), None);
    assert_eq!(flow(&env.effects, token(), bob()), 0);
    assert_eq!(flow(&env.effects, token(), alice()), 1_500);
}

#[test]
fn withdraw_or_cancel_but_never_both() {
    let unlock_time = NOW + 3600;
    for now in [NOW, unlock_time - 1, unlock_time, unlock_time + 1] {
        let mut early = vault();
        deposit(&mut early, alice(), 1_000, 0);
        early.timestamp = now;
        let mut late = vault();
        deposit(&mut late, alice(), 1_000, 0);
        late.timestamp = now;
        let cancelled = TimeLockVault::cancel_deposit(&mut early, alice(), 0);
        let withdrawn = TimeLockVault::withdraw(&mut late, alice(), 0);
        if now < unlock_time {
            assert_eq!(cancelled, Ok(()));
            assert_eq!(withdrawn, Err(VaultError::FundsStillLocked));
        } else {
            assert_eq!(cancelled, Err(VaultError::FundsStillLocked));
            assert_eq!(withdrawn, Ok(()));
        }
    }
}

#[test]
fn time_remaining_tells_when() {
    let mut env = vault();
    deposit(&mut env, alice(), 1_000, 0);
    assert_eq!(TimeLockVault::time_remaining(&env, alice(), 0), 3600);
    env.timestamp += 3599;
    assert_eq!(TimeLockVault::time_remaining(&env, alice(), 0), 1);
    assert_eq!(
        TimeLockVault::withdraw(&mut env, alice(), 0),
        Err(VaultError::FundsStillLocked)
    );
    env.timestamp += 1;
    assert_eq!(TimeLockVault::time_remaining(&env, alice(), 0), 0);
    assert_eq!(TimeLockVault::withdraw(&mut env, alice(), 0), Ok(()));
}

#[test]
fn no_deposit_is_paid_out_twice() {
    let mut env = vault();
    deposit(&mut env, alice(), 1_000, 0);
    TimeLockVault::cancel_deposit(&mut env, alice(), 0).unwrap();
    env.timestamp = NOW + 10_000;
    assert_eq!(
        TimeLockVault::cancel_deposit(&mut env, alice(), 0),
        Err(VaultError::NoDepositFound)
    );
    assert_eq!(
        TimeLockVault::withdraw(&mut env, alice(), 0),
        Err(VaultError::NoDepositFound)
    );
    assert_eq!(
        TimeLockVault::emergency_withdraw(&mut env, admin(), alice(), 0),
        Err(VaultError::NoDepositFound)
    );
    assert_eq!(
        TimeLockVault::batch_emergency_withdraw(&mut env, admin(), vec![alice()]),
        Ok(vec![WithdrawResult { depositor: alice(), success: false }])
    );
}

// ================================================================
//  Depositors
// ================================================================

#[test]
fn calls_leave_other_depositors_alone() {
    let mut env = vault();
    deposit(&mut env, alice(), 1_000, 0);
    deposit(&mut env, bob(), 2_000, 0);
    TimeLockVault::set_beneficiary(&mut env, bob(), carol()).unwrap();
    let before = TimeLockVault::get_vault(&env, bob(), 0);
    TimeLockVault::renew_deposit(&mut env, alice(), 0, 5, NOW + 8_000).unwrap();
    TimeLockVault::cancel_deposit(&mut env, alice(), 0).unwrap();
    assert_eq!(TimeLockVault::get_vault(&env, bob(), 0), before);
    assert_eq!(TimeLockVault::get_beneficiary(&env, bob()), Some(carol()));
    assert_eq!(TimeLockVault::get_depositors(&env, 0, 10), vec![bob()]);
}

#[test]
fn depositor_is_listed_once_and_unlisted_by_the_first_payout() {
    let mut env = vault();
    deposit(&mut env, alice(), 10, 0);
    deposit(&mut env, alice(), 20, 0);
    assert_eq!(TimeLockVault::get_depositor_count(&env), 1);
    TimeLockVault::cancel_deposit(&mut env, alice(), 0).unwrap();
    assert_eq!(TimeLockVault::get_depositor_count(&env), 0);
    assert!(TimeLockVault::has_deposit(&env, alice(), 1));
}

#[test]
fn pages_join_up() {
    let mut env = vault();
    for depositor in [alice(), bob(), carol(), admin()] {
        deposit(&mut env, depositor, 10, 0);
    }
    assert_eq!(TimeLockVault::get_depositors(&env, 0, 3), vec![alice(), bob(), carol()]);
    assert_eq!(TimeLockVault::get_depositors(&env, 3, 3), vec![admin()]);
    assert_eq!(TimeLockVault::get_depositors(&env, 1, 2), vec![bob(), carol()]);
    assert_eq!(
        TimeLockVault::get_depositors(&env, 0, u32::MAX),
        vec![alice(), bob(), carol(), admin()]
    );
    assert_eq!(TimeLockVault::get_depositors(&env, u32::MAX, u32::MAX), vec![]);
    assert_eq!(TimeLockVault::get_depositors(&env, 2, 0), vec![]);
    TimeLockVault::cancel_deposit(&mut env, bob(), 0).unwrap();
    assert_eq!(TimeLockVault::get_depositors(&env, 0, 9), vec![alice(), carol(), admin()]);
}

#[test]
fn beneficiary_can_be_replaced() {
    let mut env = vault();
    assert_eq!(TimeLockVault::set_beneficiary(&mut env, alice(), bob()), Ok(()));
    assert_eq!(TimeLockVault::set_beneficiary(&mut env, alice(), carol()), Ok(()));
    assert_eq!(TimeLockVault::get_beneficiary(&env, alice()), Some(carol()));
    assert_eq!(
        env.effects[..2],
        [Effect::RequireAuth(alice()), Effect::Store(VaultKey::Beneficiary(alice()))]
    );
}

// ================================================================
//  Batches
// ================================================================

#[test]
fn batch_returns_first_deposits_once_and_in_order() {
    let mut env = vault();
    deposit(&mut env, alice(), 10, 0);
    deposit(&mut env, alice(), 20, 0);
    deposit(&mut env, bob(), 30, 0);
    let results = TimeLockVault::batch_emergency_withdraw(
        &mut env,
        admin(),
        vec![bob(), carol(), alice(), bob()],
    )
    .unwrap();
    assert_eq!(
        results,
        vec![
            WithdrawResult { depositor: bob(), success: true },
            WithdrawResult { depositor: carol(), success: false },
            WithdrawResult { depositor: alice(), success: true },
            WithdrawResult { depositor: bob(), success: false },
        ]
    );
    assert_eq!(
        env.effects,
        vec![
            Effect::RequireAuth(admin()),
            Effect::Store(VaultKey::Deposit(bob(), 0)),
            Effect::Store(VaultKey::Depositors),
            Effect::Store(VaultKey::Beneficiary(bob())),
            transfer(token(), contract(), bob(), 30),
            Effect::Publish(Event::BatchEmergencyWithdrawItem {
                admin: admin(),
                depositor: bob(),
                token: token(),
                amount: 30,
                unlock_time: NOW + 3600,
            }),
            Effect::Store(VaultKey::Deposit(alice(), 0)),
            Effect::Store(VaultKey::Depositors),
            Effect::Store(VaultKey::Beneficiary(alice())),
            transfer(token(), contract(), alice(), 10),
            Effect::Publish(Event::BatchEmergencyWithdrawItem {
                admin: admin(),
                depositor: alice(),
                token: token(),
                amount: 10,
                unlock_time: NOW + 3600,
            }),
        ]
    );
    assert!(TimeLockVault::has_deposit(&env, alice(), 1));
}

#[test]
fn batch_does_what_single_emergency_withdrawals_do() {
    let named = [alice(), carol(), bob()];
    let mut batch = vault();
    let mut single = vault();
    for env in [&mut batch, &mut single] {
        deposit(env, alice(), 10, 0);
        deposit(env, bob(), 30, 0);
        TimeLockVault::set_beneficiary(env, carol(), alice()).unwrap();
    }
    let results =
        TimeLockVault::batch_emergency_withdraw(&mut batch, admin(), named.to_vec()).unwrap();
    for (depositor, result) in named.iter().zip(results) {
        let answer = TimeLockVault::emergency_withdraw(&mut single, admin(), *depositor, 0);
        assert_eq!(answer.is_ok(), result.success);
    }
    for depositor in named {
        assert_eq!(
            TimeLockVault::get_vault(&batch, depositor, 0),
            TimeLockVault::get_vault(&single, depositor, 0)
        );
        assert_eq!(
            TimeLockVault::get_beneficiary(&batch, depositor),
            TimeLockVault::get_beneficiary(&single, depositor)
        );
        assert_eq!(
            flow(&batch.effects, token(), depositor),
            flow(&single.effects, token(), depositor)
        );
    }
    assert_eq!(
        flow(&batch.effects, token(), contract()),
        flow(&single.effects, token(), contract())
    );
    assert_eq!(
        TimeLockVault::get_depositors(&batch, 0, 9),
        TimeLockVault::get_depositors(&single, 0, 9)
    );
}

#[test]
fn batch_may_be_as_long_as_the_maximum() {
    let mut env = vault();
    let named: Vec<Address> = (0..MAX_BATCH_SIZE).map(|i| account(100 + i as u128)).collect();
    let results = TimeLockVault::batch_emergency_withdraw(&mut env, admin(), named).unwrap();
    assert_eq!(results.len(), MAX_BATCH_SIZE as usize);
    assert!(results.iter().all(|result| !result.success));
}

#[test]
fn batch_authorization_is_checked_before_its_size() {
    let mut env = vault();
    let named: Vec<Address> = (0..=MAX_BATCH_SIZE).map(|i| account(100 + i as u128)).collect();
    assert_eq!(
        TimeLockVault::batch_emergency_withdraw(&mut env, alice(), named),
        Err(VaultError::Unauthorized)
    );
}

// ================================================================
//  The administrator
// ================================================================

#[test]
fn administrator_cannot_propose_themselves() {
    let mut env = vault();
    assert_eq!(
        TimeLockVault::transfer_admin(&mut env, admin(), admin()),
        Err(VaultError::InvalidAdmin)
    );
    assert_eq!(TimeLockVault::get_pending_admin(&env), None);
}

#[test]
fn later_proposal_replaces_the_earlier_one() {
    let mut env = vault();
    TimeLockVault::transfer_admin(&mut env, admin(), alice()).unwrap();
    TimeLockVault::transfer_admin(&mut env, admin(), bob()).unwrap();
    assert_eq!(
        TimeLockVault::accept_admin(&mut env, alice()),
        Err(VaultError::Unauthorized)
    );
    assert_eq!(TimeLockVault::accept_admin(&mut env, bob()), Ok(()));
    assert_eq!(
        TimeLockVault::accept_admin(&mut env, bob()),
        Err(VaultError::Unauthorized)
    );
}

#[test]
fn change_of_hands_asks_for_its_effects_in_order() {
    let mut env = vault();
    TimeLockVault::transfer_admin(&mut env, admin(), bob()).unwrap();
    TimeLockVault::accept_admin(&mut env, bob()).unwrap();
    assert_eq!(
        env.effects,
        vec![
            Effect::RequireAuth(admin()),
            Effect::Store(VaultKey::PendingAdmin),
            Effect::Publish(Event::AdminTransferInitiated {
                admin: admin(),
                new_admin: bob(),
            }),
            Effect::RequireAuth(bob()),
            Effect::Store(VaultKey::Admin),
            Effect::Store(VaultKey::PendingAdmin),
            Effect::Publish(Event::AdminTransferAccepted { new_admin: bob() }),
        ]
    );
}

#[test]
fn cancelled_transfer_cannot_be_accepted() {
    let mut env = vault();
    TimeLockVault::transfer_admin(&mut env, admin(), bob()).unwrap();
    assert_eq!(
        TimeLockVault::cancel_transfer_admin(&mut env, bob()),
        Err(VaultError::Unauthorized)
    );
    TimeLockVault::cancel_transfer_admin(&mut env, admin()).unwrap();
    assert_eq!(
        TimeLockVault::accept_admin(&mut env, bob()),
        Err(VaultError::Unauthorized)
    );
}

#[test]
fn renounced_role_is_gone_for_good() {
    let mut env = vault();
    deposit(&mut env, alice(), 10, 0);
    TimeLockVault::transfer_admin(&mut env, admin(), bob()).unwrap();
    TimeLockVault::renounce_admin(&mut env, admin()).unwrap();
    let denied = Err(VaultError::Unauthorized);
    assert_eq!(TimeLockVault::accept_admin(&mut env, bob()), denied);
    assert_eq!(TimeLockVault::transfer_admin(&mut env, admin(), bob()), denied);
    assert_eq!(TimeLockVault::cancel_transfer_admin(&mut env, admin()), denied);
    assert_eq!(TimeLockVault::renounce_admin(&mut env, admin()), denied);
    assert_eq!(TimeLockVault::emergency_withdraw(&mut env, admin(), alice(), 0), denied);
    assert_eq!(
        TimeLockVault::batch_emergency_withdraw(&mut env, admin(), vec![alice()]),
        Err(VaultError::Unauthorized)
    );
    assert_eq!(
        TimeLockVault::initialize(&mut env, admin(), None, None),
        Err(VaultError::AlreadyInitialized)
    );
    env.timestamp = NOW + 3600;
    assert_eq!(TimeLockVault::withdraw(&mut env, alice(), 0), Ok(()));
}

// ================================================================
//  The vault as a whole
// ================================================================

#[test]
fn balance_covers_what_is_locked() {
    let mut env = vault();
    env.storage.fee_recipient = Some(carol());
    let unlock_time = NOW + 3600;
    TimeLockVault::deposit(&mut env, alice(), token(), 1_000, unlock_time, 300).unwrap();
    TimeLockVault::deposit(&mut env, bob(), other_token(), 70, unlock_time, 0).unwrap();
    TimeLockVault::deposit(&mut env, bob(), token(), 500, unlock_time, 0).unwrap();
    TimeLockVault::renew_deposit(&mut env, bob(), 1, 50, unlock_time).unwrap();
    assert_eq!(flow(&env.effects, token(), contract()), 1_550);
    assert_eq!(flow(&env.effects, other_token(), contract()), 70);
    TimeLockVault::cancel_deposit(&mut env, alice(), 0).unwrap();
    assert_eq!(flow(&env.effects, token(), contract()), 550);
    TimeLockVault::batch_emergency_withdraw(&mut env, admin(), vec![bob()]).unwrap();
    assert_eq!(flow(&env.effects, other_token(), contract()), 0);
    assert_eq!(flow(&env.effects, token(), contract()), 550);
    env.timestamp = unlock_time;
    TimeLockVault::withdraw(&mut env, bob(), 1).unwrap();
    assert_eq!(flow(&env.effects, token(), contract()), 0);
    assert_eq!(flow(&env.effects, token(), carol()), 30);
}

#[test]
fn every_event_has_its_name_and_topics() {
    let (admin, alice, bob, token) = (admin(), alice(), bob(), token());
    let events = [
        (
            Event::Deposit { depositor: alice, token, amount: 1, unlock_time: 2 },
            "deposit",
            vec![alice, token],
        ),
        (
            Event::DepositRenewed { depositor: alice, token, amount: 1, unlock_time: 2 },
            "dep_renew",
            vec![alice, token],
        ),
        (
            Event::DepositCancelled { depositor: alice, token, amount: 2, penalty: 1 },
            "dep_cancel",
            vec![alice, token],
        ),
        (
            Event::LockExtended {
                depositor: alice,
                deposit_id: 0,
                old_unlock_time: 1,
                new_unlock_time: 2,
            },
            "lock_ext",
            vec![alice],
        ),
        (
            Event::Withdraw { depositor: alice, token, amount: 1 },
            "withdraw",
            vec![alice, token],
        ),
        (
            Event::EmergencyWithdraw {
                admin,
                depositor: alice,
                token,
                amount: 1,
                unlock_time: 2,
            },
            "emrg_wdraw",
            vec![admin, alice],
        ),
        (
            Event::BatchEmergencyWithdrawItem {
                admin,
                depositor: alice,
                token,
                amount: 1,
                unlock_time: 2,
            },
            "batch_emrg",
            vec![admin, alice],
        ),
        (
            Event::AdminTransferInitiated { admin, new_admin: bob },
            "adm_xfr_init",
            vec![admin, bob],
        ),
        (Event::AdminTransferAccepted { new_admin: bob }, "adm_xfr_accept", vec![bob]),
        (Event::AdminTransferCancelled { admin }, "adm_xfr_cancel", vec![admin]),
        (Event::AdminRenounced { admin }, "adm_renounce", vec![admin]),
    ];
    for (event, name, topics) in events {
        assert_eq!(event.name(), name);
        assert_eq!(event.topics(), topics);
    }
}

#[test]
fn every_event_has_its_data() {
    let (admin, alice, bob, token) = (admin(), alice(), bob(), token());
    let events = [
        (
            Event::Deposit { depositor: alice, token, amount: 1, unlock_time: 2 },
            vec![Datum::Amount(1), Datum::Time(2)],
        ),
        (
            Event::DepositRenewed { depositor: alice, token, amount: 1, unlock_time: 2 },
            vec![Datum::Amount(1), Datum::Time(2)],
        ),
        (
            Event::DepositCancelled { depositor: alice, token, amount: 2, penalty: 1 },
            vec![Datum::Amount(2), Datum::Amount(1)],
        ),
        (
            Event::LockExtended {
                depositor: alice,
                deposit_id: 7,
                old_unlock_time: 1,
                new_unlock_time: 2,
            },
            vec![Datum::Number(7), Datum::Time(1), Datum::Time(2)],
        ),
        (Event::Withdraw { depositor: alice, token, amount: 1 }, vec![Datum::Amount(1)]),
        (
            Event::EmergencyWithdraw {
                admin,
                depositor: alice,
                token,
                amount: 1,
                unlock_time: 2,
            },
            vec![Datum::Address(token), Datum::Amount(1), Datum::Time(2)],
        ),
        (
            Event::BatchEmergencyWithdrawItem {
                admin,
                depositor: alice,
                token,
                amount: 1,
                unlock_time: 2,
            },
            vec![Datum::Address(token), Datum::Amount(1), Datum::Time(2)],
        ),
        (Event::AdminTransferInitiated { admin, new_admin: bob }, vec![]),
        (Event::AdminTransferAccepted { new_admin: bob }, vec![]),
        (Event::AdminTransferCancelled { admin }, vec![]),
        (Event::AdminRenounced { admin }, vec![]),
    ];
    for (event, data) in events {
        assert_eq!(event.data(), data);
    }
}

#[test]
fn renewals_add_up() {
    let mut twice = vault();
    deposit(&mut twice, alice(), 1_000, 0);
    TimeLockVault::renew_deposit(&mut twice, alice(), 0, 300, NOW + 5_000).unwrap();
    TimeLockVault::renew_deposit(&mut twice, alice(), 0, 200, NOW + 9_000).unwrap();
    let mut at_once = vault();
    deposit(&mut at_once, alice(), 1_000, 0);
    TimeLockVault::renew_deposit(&mut at_once, alice(), 0, 500, NOW + 9_000).unwrap();
    assert_eq!(
        TimeLockVault::get_vault(&twice, alice(), 0),
        TimeLockVault::get_vault(&at_once, alice(), 0)
    );
    for holder in [alice(), contract()] {
        assert_eq!(
            flow(&twice.effects, token(), holder),
            flow(&at_once.effects, token(), holder)
        );
    }
}

#[test]
fn no_second_payout_without_an_administrator() {
    let mut env = vault();
    deposit(&mut env, alice(), 1_000, 0);
    TimeLockVault::renounce_admin(&mut env, admin()).unwrap();
    TimeLockVault::cancel_deposit(&mut env, alice(), 0).unwrap();
    env.timestamp = NOW + 10_000;
    assert_eq!(
        TimeLockVault::withdraw(&mut env, alice(), 0),
        Err(VaultError::NoDepositFound)
    );
    assert_eq!(
        TimeLockVault::emergency_withdraw(&mut env, admin(), alice(), 0),
        Err(VaultError::Unauthorized)
    );
}

#[test]
fn table_reads_back_what_was_set() {
    let mut table: Table<Address, u32> = Table::new();
    assert_eq!(table.get(alice()), None);
    table.set(alice(), 1);
    table.set(bob(), 2);
    table.set(alice(), 3);
    assert_eq!(table.get(alice()), Some(3));
    assert_eq!(table.get(bob()), Some(2));
    table.remove(alice());
    table.remove(carol());
    assert_eq!(table.get(alice()), None);
    assert_eq!(table.get(bob()), Some(2));
}
