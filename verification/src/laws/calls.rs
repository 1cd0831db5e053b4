//! The calls that can change the vault, as values.

use vstd::prelude::*;

use crate::env::Effect;
use crate::errors::VaultError;
use crate::model;
use crate::storage::VaultState;
use crate::types::Address;

verus! {

/// A call that can change the vault.
pub enum Call {
    Initialize { admin: Address, max_deposit: Option<i128>, max_lock_secs: Option<u64> },
    Deposit {
        depositor: Address,
        token: Address,
        amount: i128,
        unlock_time: u64,
        penalty_bps: u32,
    },
    RenewDeposit {
        depositor: Address,
        deposit_id: u32,
        additional_amount: i128,
        new_unlock_time: u64,
    },
    CancelDeposit { depositor: Address, deposit_id: u32 },
    ExtendLock { depositor: Address, deposit_id: u32, new_unlock_time: u64 },
    Withdraw { depositor: Address, deposit_id: u32 },
    SetBeneficiary { depositor: Address, beneficiary: Address },
    EmergencyWithdraw { admin: Address, depositor: Address, deposit_id: u32 },
    BatchEmergencyWithdraw { admin: Address, depositors: Seq<Address> },
    TransferAdmin { admin: Address, new_admin: Address },
    AcceptAdmin { new_admin: Address },
    CancelTransferAdmin { admin: Address },
    RenounceAdmin { admin: Address },
}

impl Call {
    /// In whose name the call is made.
    pub open spec fn caller(self) -> Address {
        match self {
            Call::Initialize { admin, .. } => admin,
            Call::Deposit { depositor, .. } => depositor,
            Call::RenewDeposit { depositor, .. } => depositor,
            Call::CancelDeposit { depositor, .. } => depositor,
            Call::ExtendLock { depositor, .. } => depositor,
            Call::Withdraw { depositor, .. } => depositor,
            Call::SetBeneficiary { depositor, .. } => depositor,
            Call::EmergencyWithdraw { admin, .. } => admin,
            Call::BatchEmergencyWithdraw { admin, .. } => admin,
            Call::TransferAdmin { admin, .. } => admin,
            Call::AcceptAdmin { new_admin } => new_admin,
            Call::CancelTransferAdmin { admin } => admin,
            Call::RenounceAdmin { admin } => admin,
        }
    }

    /// Whether the call is about `depositor`.
    pub open spec fn concerns(self, depositor: Address) -> bool {
        match self {
            Call::Deposit { depositor: d, .. } => d == depositor,
            Call::RenewDeposit { depositor: d, .. } => d == depositor,
            Call::CancelDeposit { depositor: d, .. } => d == depositor,
            Call::ExtendLock { depositor: d, .. } => d == depositor,
            Call::Withdraw { depositor: d, .. } => d == depositor,
            Call::SetBeneficiary { depositor: d, .. } => d == depositor,
            Call::EmergencyWithdraw { depositor: d, .. } => d == depositor,
            Call::BatchEmergencyWithdraw { depositors, .. } => depositors.contains(depositor),
            _ => false,
        }
    }

    /// The reason for which the call is rejected at the time `now`, if any.
    pub open spec fn fault(self, s: VaultState, now: u64) -> Option<VaultError> {
        match self {
            Call::Initialize { max_deposit, max_lock_secs, .. } => {
                model::initialize_fault(s, max_deposit, max_lock_secs)
            },
            Call::Deposit { depositor, amount, unlock_time, penalty_bps, .. } => {
                model::deposit_fault(s, now, depositor, amount, unlock_time, penalty_bps)
            },
            Call::RenewDeposit { depositor, deposit_id, additional_amount, new_unlock_time } => {
                model::renew_deposit_fault(
                    s,
                    now,
                    depositor,
                    deposit_id,
                    additional_amount,
                    new_unlock_time,
                )
            },
            Call::CancelDeposit { depositor, deposit_id } => {
                model::cancel_deposit_fault(s, now, depositor, deposit_id)
            },
            Call::ExtendLock { depositor, deposit_id, new_unlock_time } => {
                model::extend_lock_fault(s, now, depositor, deposit_id, new_unlock_time)
            },
            Call::Withdraw { depositor, deposit_id } => {
                model::withdraw_fault(s, now, depositor, deposit_id)
            },
            Call::SetBeneficiary { .. } => None,
            Call::EmergencyWithdraw { admin, depositor, deposit_id } => {
                model::emergency_withdraw_fault(s, admin, depositor, deposit_id)
            },
            Call::BatchEmergencyWithdraw { admin, depositors } => {
                model::batch_emergency_withdraw_fault(s, admin, depositors)
            },
            Call::TransferAdmin { admin, new_admin } => {
                model::transfer_admin_fault(s, admin, new_admin)
            },
            Call::AcceptAdmin { new_admin } => model::accept_admin_fault(s, new_admin),
            Call::CancelTransferAdmin { admin } => model::admin_fault(s, admin),
            Call::RenounceAdmin { admin } => model::admin_fault(s, admin),
        }
    }

    /// The records after the call, if it is not rejected.
    pub open spec fn done(self, s: VaultState) -> VaultState {
        match self {
            Call::Initialize { admin, max_deposit, max_lock_secs } => {
                model::initialize_state(s, admin, max_deposit, max_lock_secs)
            },
            Call::Deposit { depositor, token, amount, unlock_time, penalty_bps } => {
                model::deposit_state(s, depositor, token, amount, unlock_time, penalty_bps)
            },
            Call::RenewDeposit { depositor, deposit_id, additional_amount, new_unlock_time } => {
                model::renew_deposit_state(
                    s,
                    depositor,
                    deposit_id,
                    additional_amount,
                    new_unlock_time,
                )
            },
            Call::CancelDeposit { depositor, deposit_id } => {
                model::closed_state(s, depositor, deposit_id)
            },
            Call::ExtendLock { depositor, deposit_id, new_unlock_time } => {
                model::extend_lock_state(s, depositor, deposit_id, new_unlock_time)
            },
            Call::Withdraw { depositor, deposit_id } => {
                model::closed_state(s, depositor, deposit_id)
            },
            Call::SetBeneficiary { depositor, beneficiary } => {
                s.with_beneficiary(depositor, beneficiary)
            },
            Call::EmergencyWithdraw { depositor, deposit_id, .. } => {
                model::closed_state(s, depositor, deposit_id)
            },
            Call::BatchEmergencyWithdraw { depositors, .. } => {
                model::batch_emergency_withdraw_state(s, depositors)
            },
            Call::TransferAdmin { new_admin, .. } => s.with_pending_admin(Some(new_admin)),
            Call::AcceptAdmin { new_admin } => {
                s.with_admin(Some(new_admin)).with_pending_admin(None)
            },
            Call::CancelTransferAdmin { .. } => s.with_pending_admin(None),
            Call::RenounceAdmin { .. } => s.with_admin(None).with_pending_admin(None),
        }
    }

    /// What the call asks of the ledger beyond the authorization, if it is not rejected.
    pub open spec fn wanted(self, s: VaultState, contract: Address) -> Seq<Effect> {
        match self {
            Call::Initialize { max_deposit, max_lock_secs, .. } => {
                model::initialize_effects(max_deposit, max_lock_secs)
            },
            Call::Deposit { depositor, token, amount, unlock_time, .. } => {
                model::deposit_effects(s, contract, depositor, token, amount, unlock_time)
            },
            Call::RenewDeposit { depositor, deposit_id, additional_amount, new_unlock_time } => {
                model::renew_deposit_effects(
                    s,
                    contract,
                    depositor,
                    deposit_id,
                    additional_amount,
                    new_unlock_time,
                )
            },
            Call::CancelDeposit { depositor, deposit_id } => {
                model::cancel_deposit_effects(s, contract, depositor, deposit_id)
            },
            Call::ExtendLock { depositor, deposit_id, new_unlock_time } => {
                model::extend_lock_effects(s, depositor, deposit_id, new_unlock_time)
            },
            Call::Withdraw { depositor, deposit_id } => {
                model::withdraw_effects(s, contract, depositor, deposit_id)
            },
            Call::SetBeneficiary { depositor, .. } => model::set_beneficiary_effects(depositor),
            Call::EmergencyWithdraw { admin, depositor, deposit_id } => {
                model::emergency_withdraw_effects(s, contract, admin, depositor, deposit_id)
            },
            Call::BatchEmergencyWithdraw { admin, depositors } => {
                model::batch_emergency_withdraw_effects(s, contract, admin, depositors)
            },
            Call::TransferAdmin { admin, new_admin } => {
                model::transfer_admin_effects(admin, new_admin)
            },
            Call::AcceptAdmin { new_admin } => model::accept_admin_effects(new_admin),
            Call::CancelTransferAdmin { admin } => model::cancel_transfer_admin_effects(admin),
            Call::RenounceAdmin { admin } => model::renounce_admin_effects(admin),
        }
    }

    /// Whether the call stays within what the machine's integers can hold: a deposit
    /// number is left, and the penalty can be computed.
    pub open spec fn within_limits(self, s: VaultState, now: u64) -> bool {
        self.fault(s, now) is None ==> match self {
            Call::Deposit { depositor, .. } => s.next_id(depositor) < u32::MAX,
            Call::CancelDeposit { depositor, deposit_id } => {
                model::penalty_computable(s.deposit(depositor, deposit_id).unwrap())
            },
            _ => true,
        }
    }

    /// The records after the call, rejected or not.
    pub open spec fn after(self, s: VaultState, now: u64) -> VaultState {
        model::settled(self.fault(s, now), s, self.done(s))
    }

    /// Everything that the call asks of the ledger.
    pub open spec fn effects(self, s: VaultState, contract: Address, now: u64) -> Seq<Effect> {
        model::issued(self.caller(), self.fault(s, now), self.wanted(s, contract))
    }
}

/// A call and the time at which it is made.
pub struct Step {
    pub now: u64,
    pub call: Call,
}

/// The records after `steps`, one after the other.
pub open spec fn run(s: VaultState, steps: Seq<Step>) -> VaultState
    decreases steps.len(),
{
    if steps.len() == 0 {
        s
    } else {
        steps.last().call.after(run(s, steps.drop_last()), steps.last().now)
    }
}

/// Everything that `steps`, one after the other, ask of the ledger.
pub open spec fn run_effects(s: VaultState, contract: Address, steps: Seq<Step>) -> Seq<Effect>
    decreases steps.len(),
{
    if steps.len() == 0 {
        Seq::empty()
    } else {
        run_effects(s, contract, steps.drop_last()) + steps.last().call.effects(
            run(s, steps.drop_last()),
            contract,
            steps.last().now,
        )
    }
}

/// Whether each of `steps` stays within what the machine's integers can hold.
pub open spec fn runs_within_limits(s: VaultState, steps: Seq<Step>) -> bool
    decreases steps.len(),
{
    steps.len() > 0 ==> {
        &&& runs_within_limits(s, steps.drop_last())
        &&& steps.last().call.within_limits(run(s, steps.drop_last()), steps.last().now)
    }
}

/// A rejected call leaves the records as they were and asks for nothing but the caller's
/// authorization.
pub proof fn law_rejected_call_changes_nothing(
    s: VaultState,
    contract: Address,
    now: u64,
    call: Call,
)
    requires
        call.fault(s, now) is Some,
    ensures
        call.after(s, now) == s,
        call.effects(s, contract, now) == seq![Effect::RequireAuth(call.caller())],
{
}

/// Whatever becomes of it, a call asks first of all for the authorization of the address
/// in whose name it is made, and for no other authorization.
pub proof fn law_caller_has_to_authorize(s: VaultState, contract: Address, now: u64, call: Call)
    ensures
        call.effects(s, contract, now).len() > 0,
        call.effects(s, contract, now)[0] == Effect::RequireAuth(call.caller()),
        forall|i: int|
            0 < i < call.effects(s, contract, now).len() ==> !(#[trigger] call.effects(
                s,
                contract,
                now,
            )[i] is RequireAuth),
{
    if let Call::BatchEmergencyWithdraw { admin, depositors } = call {
        lemma_batch_asks_no_authorization(s, contract, admin, depositors);
    }
}

proof fn lemma_batch_asks_no_authorization(
    s: VaultState,
    contract: Address,
    admin: Address,
    depositors: Seq<Address>,
)
    ensures
        forall|i: int|
            0 <= i < model::batch_emergency_withdraw_effects(s, contract, admin, depositors).len()
                ==> !(#[trigger] model::batch_emergency_withdraw_effects(
                s,
                contract,
                admin,
                depositors,
            )[i] is RequireAuth),
    decreases depositors.len(),
{
    if depositors.len() > 0 {
        lemma_batch_asks_no_authorization(s, contract, admin, depositors.drop_last());
    }
}

} // verus!
