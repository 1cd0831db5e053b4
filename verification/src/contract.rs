//! The entry points of the vault.

use vstd::prelude::*;

use crate::constants::{
    MAX_BATCH_SIZE, MAX_DEPOSIT_AMOUNT, MAX_LOCK_DURATION_SECS, MAX_PENALTY_BPS,
    MIN_LOCK_DURATION_SECS,
};
use crate::env::{Effect, Env};
use crate::errors::VaultError;
use crate::events::Event;
use crate::model;
use crate::storage;
use crate::types::{Address, VaultEntry, WithdrawResult};

verus! {

/// The time-locked vault.
///
/// Every call that can change the vault asks first of all for the authorization of
/// the address in whose name it is made. A call that is rejected asks for nothing
/// else and leaves the records as they were.
pub struct TimeLockVault;

impl TimeLockVault {
    // ----------------------------------------------------------------
    //  Initialization
    // ----------------------------------------------------------------

    /// Gives the vault its administrator and, if they are given, its own limits.
    /// It can be called once, and should be right after deployment.
    pub fn initialize(
        env: &mut Env,
        admin: Address,
        max_deposit: Option<i128>,
        max_lock_secs: Option<u64>,
    ) -> (r: Result<(), VaultError>)
        ensures
            ({
                let s = old(env).storage@;
                let fault = model::initialize_fault(s, max_deposit, max_lock_secs);
                &&& r == model::verdict(fault)
                &&& model::answered(
                    *old(env),
                    *final(env),
                    admin,
                    fault,
                    model::initialize_state(s, admin, max_deposit, max_lock_secs),
                    model::initialize_effects(max_deposit, max_lock_secs),
                )
            }),
    {
        env.require_auth(admin);

        if env.storage.initialized {
            return Err(VaultError::AlreadyInitialized);
        }
        // The limits are checked before anything is written, since a rejected call
        // leaves no trace.
        if let Some(max) = max_deposit {
            if max <= 0 {
                return Err(VaultError::InvalidAmount);
            }
        }
        if let Some(max) = max_lock_secs {
            if max == 0 {
                return Err(VaultError::LockDurationTooLong);
            }
        }
        storage::set_admin(env, admin);
        storage::set_initialized(env);
        if let Some(max) = max_deposit {
            storage::set_max_deposit(env, max);
        }
        if let Some(max) = max_lock_secs {
            storage::set_max_lock_secs(env, max);
        }
        assert(env.effects@ =~= old(env).effects@ + (seq![Effect::RequireAuth(admin)]
            + model::initialize_effects(max_deposit, max_lock_secs)));
        Ok(())
    }

    // ----------------------------------------------------------------
    //  Deposits
    // ----------------------------------------------------------------

    /// Locks `amount` of `token` until `unlock_time`, under the depositor's next
    /// deposit number.
    pub fn deposit(
        env: &mut Env,
        depositor: Address,
        token: Address,
        amount: i128,
        unlock_time: u64,
        penalty_bps: u32,
    ) -> (r: Result<(), VaultError>)
        requires
            model::deposit_fault(
                old(env).storage@,
                old(env).timestamp,
                depositor,
                amount,
                unlock_time,
                penalty_bps,
            ) is None ==> old(env).storage@.next_id(depositor) < u32::MAX,
        ensures
            ({
                let s = old(env).storage@;
                let fault = model::deposit_fault(
                    s,
                    old(env).timestamp,
                    depositor,
                    amount,
                    unlock_time,
                    penalty_bps,
                );
                &&& r == model::verdict(fault)
                &&& model::answered(
                    *old(env),
                    *final(env),
                    depositor,
                    fault,
                    model::deposit_state(s, depositor, token, amount, unlock_time, penalty_bps),
                    model::deposit_effects(
                        s,
                        old(env).contract,
                        depositor,
                        token,
                        amount,
                        unlock_time,
                    ),
                )
            }),
    {
        env.require_auth(depositor);

        if amount <= 0 {
            return Err(VaultError::InvalidAmount);
        }
        let max_deposit: i128 = env.storage.max_deposit.unwrap_or(MAX_DEPOSIT_AMOUNT);
        if amount > max_deposit {
            return Err(VaultError::AmountTooLarge);
        }
        if penalty_bps > MAX_PENALTY_BPS {
            return Err(VaultError::InvalidPenaltyBps);
        }
        let now: u64 = env.timestamp;
        if unlock_time <= now {
            return Err(VaultError::UnlockTimeNotInFuture);
        }
        let max_lock: u64 = env.storage.max_lock_secs.unwrap_or(MAX_LOCK_DURATION_SECS);
        let lock_duration: u64 = unlock_time - now;
        if lock_duration > max_lock {
            return Err(VaultError::LockDurationTooLong);
        }
        if lock_duration < MIN_LOCK_DURATION_SECS {
            return Err(VaultError::LockDurationTooShort);
        }
        // The number should always be free, but make sure.
        if storage::get_deposit(env, depositor, storage::peek_deposit_id(env, depositor)).is_some() {
            return Err(VaultError::DepositAlreadyExists);
        }
        let deposit_id: u32 = storage::next_deposit_id(env, depositor);
        let contract = env.contract;
        env.transfer(token, depositor, contract, amount);

        let entry = VaultEntry { token, amount, unlock_time, penalty_bps, beneficiary: None };
        storage::set_deposit(env, depositor, deposit_id, entry);
        storage::add_depositor(env, depositor);

        env.publish(Event::Deposit { depositor, token, amount, unlock_time });
        assert(env.effects@ =~= old(env).effects@ + (seq![Effect::RequireAuth(depositor)]
            + model::deposit_effects(
            old(env).storage@,
            old(env).contract,
            depositor,
            token,
            amount,
            unlock_time,
        )));
        Ok(())
    }

    /// Tops an active deposit up, extends its lock, or both, in one step.
    ///
    /// - `new_unlock_time` must not lie before the deposit's unlock time.
    /// - `additional_amount` may be zero: then only the lock is extended.
    /// - The total must exceed neither the maximum of the vault nor
    ///   `MAX_DEPOSIT_AMOUNT`.
    pub fn renew_deposit(
        env: &mut Env,
        depositor: Address,
        deposit_id: u32,
        additional_amount: i128,
        new_unlock_time: u64,
    ) -> (r: Result<(), VaultError>)
        ensures
            ({
                let s = old(env).storage@;
                let fault = model::renew_deposit_fault(
                    s,
                    old(env).timestamp,
                    depositor,
                    deposit_id,
                    additional_amount,
                    new_unlock_time,
                );
                &&& r == model::verdict(fault)
                &&& model::answered(
                    *old(env),
                    *final(env),
                    depositor,
                    fault,
                    model::renew_deposit_state(
                        s,
                        depositor,
                        deposit_id,
                        additional_amount,
                        new_unlock_time,
                    ),
                    model::renew_deposit_effects(
                        s,
                        old(env).contract,
                        depositor,
                        deposit_id,
                        additional_amount,
                        new_unlock_time,
                    ),
                )
            }),
    {
        env.require_auth(depositor);

        if additional_amount < 0 {
            return Err(VaultError::InvalidAmount);
        }
        let mut entry = match storage::get_deposit(env, depositor, deposit_id) {
            Some(entry) => entry,
            None => return Err(VaultError::NoDepositFound),
        };
        if new_unlock_time < entry.unlock_time {
            return Err(VaultError::LockWouldNotIncrease);
        }
        let max_lock: u64 = env.storage.max_lock_secs.unwrap_or(MAX_LOCK_DURATION_SECS);
        if new_unlock_time.saturating_sub(env.timestamp) > max_lock {
            return Err(VaultError::LockDurationTooLong);
        }
        let new_total: i128 = match entry.amount.checked_add(additional_amount) {
            Some(total) => total,
            None => return Err(VaultError::AmountTooLarge),
        };
        let max_deposit: i128 = env.storage.max_deposit.unwrap_or(MAX_DEPOSIT_AMOUNT);
        if new_total > max_deposit || new_total > MAX_DEPOSIT_AMOUNT {
            return Err(VaultError::AmountTooLarge);
        }
        if additional_amount > 0 {
            let contract = env.contract;
            env.transfer(entry.token, depositor, contract, additional_amount);
        }
        entry.amount = new_total;
        entry.unlock_time = new_unlock_time;
        storage::set_deposit(env, depositor, deposit_id, entry);

        env.publish(
            Event::DepositRenewed {
                depositor,
                token: entry.token,
                amount: new_total,
                unlock_time: new_unlock_time,
            },
        );
        assert(env.effects@ =~= old(env).effects@ + (seq![Effect::RequireAuth(depositor)]
            + model::renew_deposit_effects(
            old(env).storage@,
            old(env).contract,
            depositor,
            deposit_id,
            additional_amount,
            new_unlock_time,
        )));
        Ok(())
    }

    /// Ends an active deposit before its unlock time. The penalty goes to the fee
    /// recipient, the rest back to the depositor. From the unlock time on it fails with
    /// `FundsStillLocked`: `withdraw` is the way out then.
    pub fn cancel_deposit(env: &mut Env, depositor: Address, deposit_id: u32) -> (r: Result<
        (),
        VaultError,
    >)
        requires
            model::cancel_deposit_fault(
                old(env).storage@,
                old(env).timestamp,
                depositor,
                deposit_id,
            ) is None ==> model::penalty_computable(
                old(env).storage@.deposit(depositor, deposit_id).unwrap(),
            ),
        ensures
            ({
                let s = old(env).storage@;
                let fault = model::cancel_deposit_fault(
                    s,
                    old(env).timestamp,
                    depositor,
                    deposit_id,
                );
                &&& r == model::verdict(fault)
                &&& model::answered(
                    *old(env),
                    *final(env),
                    depositor,
                    fault,
                    model::closed_state(s, depositor, deposit_id),
                    model::cancel_deposit_effects(
                        s,
                        old(env).contract,
                        depositor,
                        deposit_id,
                    ),
                )
            }),
    {
        env.require_auth(depositor);

        let entry = match storage::get_deposit(env, depositor, deposit_id) {
            Some(entry) => entry,
            None => return Err(VaultError::NoDepositFound),
        };
        if env.timestamp >= entry.unlock_time {
            return Err(VaultError::FundsStillLocked);
        }
        storage::remove_deposit(env, depositor, deposit_id);
        storage::remove_depositor(env, depositor);
        storage::remove_beneficiary(env, depositor);

        let contract = env.contract;
        proof {
            model::lemma_penalty_computable(entry);
        }
        let penalty: i128 = (entry.amount * entry.penalty_bps as i128) / 10_000;
        let refund: i128 = entry.amount - penalty;
        if penalty > 0 {
            let recipient = env.storage.fee_recipient.unwrap_or(depositor);
            env.transfer(entry.token, contract, recipient, penalty);
        }
        if refund > 0 {
            env.transfer(entry.token, contract, depositor, refund);
        }
        env.publish(
            Event::DepositCancelled {
                depositor,
                token: entry.token,
                amount: entry.amount,
                penalty,
            },
        );
        assert(env.effects@ =~= old(env).effects@ + (seq![Effect::RequireAuth(depositor)]
            + model::cancel_deposit_effects(
            old(env).storage@,
            old(env).contract,
            depositor,
            deposit_id,
        )));
        Ok(())
    }

    /// Moves the unlock time of an active deposit to `new_unlock_time`, which must lie
    /// after the present one.
    pub fn extend_lock(
        env: &mut Env,
        depositor: Address,
        deposit_id: u32,
        new_unlock_time: u64,
    ) -> (r: Result<(), VaultError>)
        ensures
            ({
                let s = old(env).storage@;
                let fault = model::extend_lock_fault(
                    s,
                    old(env).timestamp,
                    depositor,
                    deposit_id,
                    new_unlock_time,
                );
                &&& r == model::verdict(fault)
                &&& model::answered(
                    *old(env),
                    *final(env),
                    depositor,
                    fault,
                    model::extend_lock_state(s, depositor, deposit_id, new_unlock_time),
                    model::extend_lock_effects(s, depositor, deposit_id, new_unlock_time),
                )
            }),
    {
        env.require_auth(depositor);

        let mut entry = match storage::get_deposit(env, depositor, deposit_id) {
            Some(entry) => entry,
            None => return Err(VaultError::NoDepositFound),
        };
        if new_unlock_time <= entry.unlock_time {
            return Err(VaultError::LockWouldNotIncrease);
        }
        let max_lock: u64 = env.storage.max_lock_secs.unwrap_or(MAX_LOCK_DURATION_SECS);
        if new_unlock_time.saturating_sub(env.timestamp) > max_lock {
            return Err(VaultError::LockDurationTooLong);
        }
        let old_unlock_time: u64 = entry.unlock_time;
        entry.unlock_time = new_unlock_time;
        storage::set_deposit(env, depositor, deposit_id, entry);

        env.publish(
            Event::LockExtended { depositor, deposit_id, old_unlock_time, new_unlock_time },
        );
        assert(env.effects@ =~= old(env).effects@ + (seq![Effect::RequireAuth(depositor)]
            + model::extend_lock_effects(
            old(env).storage@,
            depositor,
            deposit_id,
            new_unlock_time,
        )));
        Ok(())
    }

    /// Pays a deposit out from its unlock time on, to the depositor's beneficiary if
    /// there is one, else to the depositor.
    pub fn withdraw(env: &mut Env, depositor: Address, deposit_id: u32) -> (r: Result<
        (),
        VaultError,
    >)
        ensures
            ({
                let s = old(env).storage@;
                let fault = model::withdraw_fault(s, old(env).timestamp, depositor, deposit_id);
                &&& r == model::verdict(fault)
                &&& model::answered(
                    *old(env),
                    *final(env),
                    depositor,
                    fault,
                    model::closed_state(s, depositor, deposit_id),
                    model::withdraw_effects(s, old(env).contract, depositor, deposit_id),
                )
            }),
    {
        env.require_auth(depositor);

        let entry = match storage::get_deposit(env, depositor, deposit_id) {
            Some(entry) => entry,
            None => return Err(VaultError::NoDepositFound),
        };
        if env.timestamp < entry.unlock_time {
            return Err(VaultError::FundsStillLocked);
        }
        let recipient = storage::get_beneficiary(env, depositor).unwrap_or(depositor);

        storage::remove_deposit(env, depositor, deposit_id);
        storage::remove_depositor(env, depositor);
        storage::remove_beneficiary(env, depositor);

        let contract = env.contract;
        env.transfer(entry.token, contract, recipient, entry.amount);

        env.publish(Event::Withdraw { depositor, token: entry.token, amount: entry.amount });
        assert(env.effects@ =~= old(env).effects@ + (seq![Effect::RequireAuth(depositor)]
            + model::withdraw_effects(
            old(env).storage@,
            old(env).contract,
            depositor,
            deposit_id,
        )));
        Ok(())
    }

    // ----------------------------------------------------------------
    //  Beneficiaries
    // ----------------------------------------------------------------

    /// Names who receives the depositor's withdrawals in the depositor's place.
    pub fn set_beneficiary(env: &mut Env, depositor: Address, beneficiary: Address) -> (r: Result<
        (),
        VaultError,
    >)
        ensures
            r == Ok::<(), VaultError>(()),
            model::answered(
                *old(env),
                *final(env),
                depositor,
                None,
                old(env).storage@.with_beneficiary(depositor, beneficiary),
                model::set_beneficiary_effects(depositor),
            ),
    {
        env.require_auth(depositor);
        storage::set_beneficiary(env, depositor, beneficiary);
        assert(env.effects@ =~= old(env).effects@ + (seq![Effect::RequireAuth(depositor)]
            + model::set_beneficiary_effects(depositor)));
        Ok(())
    }

    /// The beneficiary of `depositor`, or `None` if there is none.
    pub fn get_beneficiary(env: &Env, depositor: Address) -> (beneficiary: Option<Address>)
        ensures
            beneficiary == env.storage@.beneficiaries.get(depositor),
    {
        storage::get_beneficiary(env, depositor)
    }

    // ----------------------------------------------------------------
    //  Emergency withdrawals
    // ----------------------------------------------------------------

    /// Lets the administrator return a deposit to its depositor at any time.
    pub fn emergency_withdraw(
        env: &mut Env,
        admin: Address,
        depositor: Address,
        deposit_id: u32,
    ) -> (r: Result<(), VaultError>)
        ensures
            ({
                let s = old(env).storage@;
                let fault = model::emergency_withdraw_fault(s, admin, depositor, deposit_id);
                &&& r == model::verdict(fault)
                &&& model::answered(
                    *old(env),
                    *final(env),
                    admin,
                    fault,
                    model::closed_state(s, depositor, deposit_id),
                    model::emergency_withdraw_effects(
                        s,
                        old(env).contract,
                        admin,
                        depositor,
                        deposit_id,
                    ),
                )
            }),
    {
        env.require_auth(admin);
        if let Err(error) = storage::require_admin(env, admin) {
            return Err(error);
        }
        let entry = match storage::get_deposit(env, depositor, deposit_id) {
            Some(entry) => entry,
            None => return Err(VaultError::NoDepositFound),
        };
        storage::remove_deposit(env, depositor, deposit_id);
        storage::remove_depositor(env, depositor);
        storage::remove_beneficiary(env, depositor);

        let contract = env.contract;
        env.transfer(entry.token, contract, depositor, entry.amount);

        env.publish(
            Event::EmergencyWithdraw {
                admin,
                depositor,
                token: entry.token,
                amount: entry.amount,
                unlock_time: entry.unlock_time,
            },
        );
        assert(env.effects@ =~= old(env).effects@ + (seq![Effect::RequireAuth(admin)]
            + model::emergency_withdraw_effects(
            old(env).storage@,
            old(env).contract,
            admin,
            depositor,
            deposit_id,
        )));
        Ok(())
    }

    /// Lets the administrator return the first deposits of several depositors at once.
    /// The answer says for each of them, in the order given, whether there was one.
    pub fn batch_emergency_withdraw(
        env: &mut Env,
        admin: Address,
        depositors: Vec<Address>,
    ) -> (r: Result<Vec<WithdrawResult>, VaultError>)
        ensures
            ({
                let s = old(env).storage@;
                let fault = model::batch_emergency_withdraw_fault(s, admin, depositors@);
                &&& match fault {
                    None => r matches Ok(results) && results@
                        == model::batch_emergency_withdraw_results(s, depositors@),
                    Some(error) => r == Err::<Vec<WithdrawResult>, VaultError>(error),
                }
                &&& model::answered(
                    *old(env),
                    *final(env),
                    admin,
                    fault,
                    model::batch_emergency_withdraw_state(s, depositors@),
                    model::batch_emergency_withdraw_effects(
                        s,
                        old(env).contract,
                        admin,
                        depositors@,
                    ),
                )
            }),
    {
        env.require_auth(admin);
        if let Err(error) = storage::require_admin(env, admin) {
            return Err(error);
        }
        if depositors.len() > MAX_BATCH_SIZE as usize {
            return Err(VaultError::BatchTooLarge);
        }
        let contract = env.contract;
        let ghost s = env.storage@;
        let ghost asked = env.effects@;
        let mut results: Vec<WithdrawResult> = Vec::new();
        let mut i: usize = 0;
        proof {
            model::lemma_batch_of_nobody(s);
        }
        assert(depositors@.take(0) =~= Seq::empty());
        assert(env.effects@ =~= asked + Seq::empty());
        while i < depositors.len()
            invariant
                i <= depositors.len(),
                env.contract == contract,
                env.contract == old(env).contract,
                env.timestamp == old(env).timestamp,
                env.storage@ == model::batch_emergency_withdraw_state(
                    s,
                    depositors@.take(i as int),
                ),
                env.effects@ == asked + model::batch_emergency_withdraw_effects(
                    s,
                    contract,
                    admin,
                    depositors@.take(i as int),
                ),
                results@ == model::batch_emergency_withdraw_results(s, depositors@).take(i as int),
            decreases depositors.len() - i,
        {
            let depositor = depositors[i];
            let ghost done = depositors@.take(i as int);
            let ghost so_far = env.effects@;
            proof {
                let next = depositors@.take(i + 1);
                assert(next.drop_last() =~= done);
                assert(next.take(i as int) =~= done);
                assert(model::batch_hit(s, next, i as int) == model::batch_hit(
                    s,
                    depositors@,
                    i as int,
                ));
                assert(next =~= done.push(depositor));
                model::lemma_batch_step(s, done, depositor);
            }
            match storage::get_deposit(env, depositor, 0) {
                None => {
                    results.push(WithdrawResult { depositor, success: false });
                    assert(env.effects@ =~= so_far + Seq::empty());
                },
                Some(entry) => {
                    storage::remove_deposit(env, depositor, 0);
                    storage::remove_depositor(env, depositor);
                    storage::remove_beneficiary(env, depositor);

                    env.transfer(entry.token, contract, depositor, entry.amount);

                    env.publish(
                        Event::BatchEmergencyWithdrawItem {
                            admin,
                            depositor,
                            token: entry.token,
                            amount: entry.amount,
                            unlock_time: entry.unlock_time,
                        },
                    );
                    results.push(WithdrawResult { depositor, success: true });
                    assert(env.effects@ =~= so_far + model::batch_item_effects(
                        s,
                        contract,
                        admin,
                        depositor,
                    ));
                },
            }
            assert(env.effects@ =~= asked + model::batch_emergency_withdraw_effects(
                s,
                contract,
                admin,
                depositors@.take(i + 1),
            ));
            assert(results@ =~= model::batch_emergency_withdraw_results(s, depositors@).take(
                i + 1,
            ));
            i = i + 1;
        }
        assert(depositors@.take(i as int) =~= depositors@);
        assert(env.effects@ =~= old(env).effects@ + (seq![Effect::RequireAuth(admin)]
            + model::batch_emergency_withdraw_effects(s, contract, admin, depositors@)));
        assert(results@ =~= model::batch_emergency_withdraw_results(s, depositors@));
        Ok(results)
    }

    // ----------------------------------------------------------------
    //  The administrator
    // ----------------------------------------------------------------

    /// Lets the administrator propose a successor, who has to accept.
    pub fn transfer_admin(env: &mut Env, admin: Address, new_admin: Address) -> (r: Result<
        (),
        VaultError,
    >)
        ensures
            ({
                let s = old(env).storage@;
                let fault = model::transfer_admin_fault(s, admin, new_admin);
                &&& r == model::verdict(fault)
                &&& model::answered(
                    *old(env),
                    *final(env),
                    admin,
                    fault,
                    s.with_pending_admin(Some(new_admin)),
                    model::transfer_admin_effects(admin, new_admin),
                )
            }),
    {
        env.require_auth(admin);
        if let Err(error) = storage::require_admin(env, admin) {
            return Err(error);
        }
        if new_admin == admin {
            return Err(VaultError::InvalidAdmin);
        }
        storage::set_pending_admin(env, new_admin);
        env.publish(Event::AdminTransferInitiated { admin, new_admin });
        assert(env.effects@ =~= old(env).effects@ + (seq![Effect::RequireAuth(admin)]
            + model::transfer_admin_effects(admin, new_admin)));
        Ok(())
    }

    /// Makes the proposed successor the administrator.
    pub fn accept_admin(env: &mut Env, new_admin: Address) -> (r: Result<(), VaultError>)
        ensures
            ({
                let s = old(env).storage@;
                let fault = model::accept_admin_fault(s, new_admin);
                &&& r == model::verdict(fault)
                &&& model::answered(
                    *old(env),
                    *final(env),
                    new_admin,
                    fault,
                    s.with_admin(Some(new_admin)).with_pending_admin(None),
                    model::accept_admin_effects(new_admin),
                )
            }),
    {
        env.require_auth(new_admin);
        let pending = match env.storage.pending_admin {
            Some(pending) => pending,
            None => return Err(VaultError::Unauthorized),
        };
        if new_admin != pending {
            return Err(VaultError::Unauthorized);
        }
        storage::set_admin(env, new_admin);
        storage::remove_pending_admin(env);
        env.publish(Event::AdminTransferAccepted { new_admin });
        assert(env.effects@ =~= old(env).effects@ + (seq![Effect::RequireAuth(new_admin)]
            + model::accept_admin_effects(new_admin)));
        Ok(())
    }

    /// Lets the administrator take a proposal back.
    pub fn cancel_transfer_admin(env: &mut Env, admin: Address) -> (r: Result<(), VaultError>)
        ensures
            ({
                let s = old(env).storage@;
                let fault = model::admin_fault(s, admin);
                &&& r == model::verdict(fault)
                &&& model::answered(
                    *old(env),
                    *final(env),
                    admin,
                    fault,
                    s.with_pending_admin(None),
                    model::cancel_transfer_admin_effects(admin),
                )
            }),
    {
        env.require_auth(admin);
        if let Err(error) = storage::require_admin(env, admin) {
            return Err(error);
        }
        storage::remove_pending_admin(env);
        env.publish(Event::AdminTransferCancelled { admin });
        assert(env.effects@ =~= old(env).effects@ + (seq![Effect::RequireAuth(admin)]
            + model::cancel_transfer_admin_effects(admin)));
        Ok(())
    }

    /// Lets the administrator give the role up. Nobody holds it afterwards, and a
    /// proposal that was under way is void.
    pub fn renounce_admin(env: &mut Env, admin: Address) -> (r: Result<(), VaultError>)
        ensures
            ({
                let s = old(env).storage@;
                let fault = model::admin_fault(s, admin);
                &&& r == model::verdict(fault)
                &&& model::answered(
                    *old(env),
                    *final(env),
                    admin,
                    fault,
                    s.with_admin(None).with_pending_admin(None),
                    model::renounce_admin_effects(admin),
                )
            }),
    {
        env.require_auth(admin);
        if let Err(error) = storage::require_admin(env, admin) {
            return Err(error);
        }
        storage::remove_admin(env);
        storage::remove_pending_admin(env);
        env.publish(Event::AdminRenounced { admin });
        assert(env.effects@ =~= old(env).effects@ + (seq![Effect::RequireAuth(admin)]
            + model::renounce_admin_effects(admin)));
        Ok(())
    }

    // ----------------------------------------------------------------
    //  Queries
    // ----------------------------------------------------------------

    /// The deposit of `depositor` with the number `deposit_id`, if it is active.
    pub fn get_vault(env: &Env, depositor: Address, deposit_id: u32) -> (entry: Option<VaultEntry>)
        ensures
            entry == env.storage@.deposit(depositor, deposit_id),
    {
        storage::get_deposit(env, depositor, deposit_id)
    }

    /// The time of the ledger, in seconds.
    pub fn get_time(env: &Env) -> (now: u64)
        ensures
            now == env.timestamp,
    {
        env.timestamp
    }

    /// How many seconds are left until a deposit can be withdrawn: zero once it can be,
    /// and where there is no deposit.
    pub fn time_remaining(env: &Env, depositor: Address, deposit_id: u32) -> (secs: u64)
        ensures
            secs == model::time_remaining(env.storage@, env.timestamp, depositor, deposit_id),
    {
        match storage::get_deposit(env, depositor, deposit_id) {
            None => 0,
            Some(entry) => entry.unlock_time.saturating_sub(env.timestamp),
        }
    }

    /// Whether `depositor` has an active deposit with the number `deposit_id`.
    pub fn has_deposit(env: &Env, depositor: Address, deposit_id: u32) -> (b: bool)
        ensures
            b == env.storage@.deposit(depositor, deposit_id) is Some,
    {
        storage::get_deposit(env, depositor, deposit_id).is_some()
    }

    /// The administrator, if there is one.
    pub fn get_admin(env: &Env) -> (admin: Option<Address>)
        ensures
            admin == env.storage@.admin,
    {
        env.storage.admin
    }

    /// The proposed administrator, if a transfer is under way.
    pub fn get_pending_admin(env: &Env) -> (pending: Option<Address>)
        ensures
            pending == env.storage@.pending_admin,
    {
        env.storage.pending_admin
    }

    /// Whether `address` is the administrator.
    pub fn is_admin(env: &Env, address: Address) -> (b: bool)
        ensures
            b == (env.storage@.admin == Some(address)),
    {
        match env.storage.admin {
            Some(admin) => admin == address,
            None => false,
        }
    }

    /// The maximum of a deposit and the maximum of a lock in seconds.
    pub fn get_constants(env: &Env) -> (limits: (i128, u64))
        ensures
            limits.0 == model::max_deposit(env.storage@),
            limits.1 == model::max_lock(env.storage@),
    {
        let max_deposit: i128 = env.storage.max_deposit.unwrap_or(MAX_DEPOSIT_AMOUNT);
        let max_lock: u64 = env.storage.max_lock_secs.unwrap_or(MAX_LOCK_DURATION_SECS);
        (max_deposit, max_lock)
    }

    /// Who receives the penalties, if that is set.
    pub fn get_fee_recipient(env: &Env) -> (recipient: Option<Address>)
        ensures
            recipient == env.storage@.fee_recipient,
    {
        env.storage.fee_recipient
    }

    /// How many depositors are listed.
    pub fn get_depositor_count(env: &Env) -> (count: u32)
        requires
            env.storage@.depositors.len() <= u32::MAX,
        ensures
            count == env.storage@.depositors.len(),
    {
        env.storage.depositors.len() as u32
    }

    /// The listed depositors from position `offset` on, at most `limit` of them.
    pub fn get_depositors(env: &Env, offset: u32, limit: u32) -> (page: Vec<Address>)
        ensures
            page@ == storage::depositors_page(
                env.storage@.depositors,
                offset as int,
                limit as int,
            ),
    {
        storage::get_depositors_page(env, offset, limit)
    }

    /// Whether the vault has been initialized.
    pub fn is_initialized(env: &Env) -> (b: bool)
        ensures
            b == env.storage@.initialized,
    {
        env.storage.initialized
    }
}

} // verus!
