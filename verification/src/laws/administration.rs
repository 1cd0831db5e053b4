//! Laws of the initialization, the limits and the administrator.

use vstd::prelude::*;

use crate::errors::VaultError;
use crate::laws::calls::{Call, Step};
use crate::laws::calls;
use crate::model;
use crate::storage::VaultState;
use crate::types::Address;

verus! {

/// The vault is initialized once: from then on it stays so, its limits stay as they are, and a
/// second initialization answers `AlreadyInitialized`, whatever it asks for.
pub proof fn law_initialized_once(
    s: VaultState,
    now: u64,
    call: Call,
    admin: Address,
    max_deposit: Option<i128>,
    max_lock_secs: Option<u64>,
    later: u64,
)
    requires
        s.initialized,
    ensures
        ({
            let t = call.after(s, now);
            let again = Call::Initialize { admin, max_deposit, max_lock_secs };
            &&& t.initialized
            &&& t.max_deposit == s.max_deposit
            &&& t.max_lock_secs == s.max_lock_secs
            &&& again.fault(t, later) == Some(VaultError::AlreadyInitialized)
        }),
{
}

/// An initialized vault stays initialized, with the same limits, whatever calls are made.
pub proof fn law_initialized_for_good(s: VaultState, steps: Seq<Step>)
    requires
        s.initialized,
    ensures
        calls::run(s, steps).initialized,
        calls::run(s, steps).max_deposit == s.max_deposit,
        calls::run(s, steps).max_lock_secs == s.max_lock_secs,
    decreases steps.len(),
{
    if steps.len() > 0 {
        let before = calls::run(s, steps.drop_last());
        law_initialized_for_good(s, steps.drop_last());
        law_initialized_once(
            before,
            steps.last().now,
            steps.last().call,
            steps.last().call.caller(),
            None,
            None,
            steps.last().now,
        );
    }
}

/// A successful initialization makes the caller the administrator and sets the limits that were
/// given; where none was given the defaults apply.
pub proof fn law_initialization_takes_effect(
    s: VaultState,
    now: u64,
    admin: Address,
    max_deposit: Option<i128>,
    max_lock_secs: Option<u64>,
)
    requires
        model::initialize_fault(s, max_deposit, max_lock_secs) is None,
        s.max_deposit is None,
        s.max_lock_secs is None,
    ensures
        ({
            let t = (Call::Initialize { admin, max_deposit, max_lock_secs }).after(s, now);
            &&& t.initialized
            &&& t.admin == Some(admin)
            &&& model::max_deposit(t) == (match max_deposit {
                Some(max) => max,
                None => crate::constants::MAX_DEPOSIT_AMOUNT,
            })
            &&& model::max_lock(t) == (match max_lock_secs {
                Some(max) => max,
                None => crate::constants::MAX_LOCK_DURATION_SECS,
            })
        }),
{
}

/// The administrator changes only in three ways: by the initialization, by the acceptance of the
/// address that was proposed, or by renouncing the role.
pub proof fn law_administrator_changes_only_so(s: VaultState, now: u64, call: Call)
    requires
        call.after(s, now).admin != s.admin,
    ensures
        match call {
            Call::Initialize { admin, .. } => !s.initialized && call.after(s, now).admin == Some(
                admin,
            ),
            Call::AcceptAdmin { new_admin } => s.pending_admin == Some(new_admin) && call.after(
                s,
                now,
            ).admin == Some(new_admin),
            Call::RenounceAdmin { admin } => s.admin == Some(admin) && call.after(s, now).admin
                is None,
            _ => false,
        },
{
}

/// Whether only the administrator may make the call.
pub open spec fn reserved(call: Call) -> bool {
    match call {
        Call::EmergencyWithdraw { .. } => true,
        Call::BatchEmergencyWithdraw { .. } => true,
        Call::TransferAdmin { .. } => true,
        Call::CancelTransferAdmin { .. } => true,
        Call::RenounceAdmin { .. } => true,
        _ => false,
    }
}

/// A reserved call of anybody but the administrator answers `Unauthorized`.
pub proof fn law_only_the_administrator(s: VaultState, now: u64, call: Call)
    requires
        reserved(call),
        s.admin != Some(call.caller()),
    ensures
        call.fault(s, now) == Some(VaultError::Unauthorized),
{
}

/// The role changes hands in two steps. Until the proposed address accepts, the administrator
/// stays in office; nobody else can accept; and afterwards the role is the successor's alone and
/// no proposal is open.
pub proof fn law_role_changes_hands_in_two_steps(
    s: VaultState,
    now: u64,
    later: u64,
    admin: Address,
    new_admin: Address,
    impostor: Address,
)
    requires
        s.admin == Some(admin),
        new_admin != admin,
        impostor != new_admin,
    ensures
        ({
            let proposed = (Call::TransferAdmin { admin, new_admin }).after(s, now);
            let accepted = (Call::AcceptAdmin { new_admin }).after(proposed, later);
            &&& proposed.admin == Some(admin)
            &&& proposed.pending_admin == Some(new_admin)
            &&& (Call::AcceptAdmin { new_admin: impostor }).fault(proposed, later) == Some(
                VaultError::Unauthorized,
            )
            &&& (Call::AcceptAdmin { new_admin }).fault(proposed, later) is None
            &&& accepted.admin == Some(new_admin)
            &&& accepted.pending_admin is None
            &&& forall|call: Call|
                reserved(call) && #[trigger] call.caller() == admin ==> call.fault(accepted, later)
                    == Some(VaultError::Unauthorized)
        }),
{
    let proposed = (Call::TransferAdmin { admin, new_admin }).after(s, now);
    let accepted = (Call::AcceptAdmin { new_admin }).after(proposed, later);
    assert forall|call: Call| reserved(call) && #[trigger] call.caller() == admin implies call.fault(
        accepted,
        later,
    ) == Some(VaultError::Unauthorized) by {
        law_only_the_administrator(accepted, later, call);
    }
}

/// A proposal that was taken back leaves things as they were before it, if no other was open.
pub proof fn law_cancelled_transfer_leaves_no_trace(
    s: VaultState,
    now: u64,
    later: u64,
    admin: Address,
    new_admin: Address,
)
    requires
        s.admin == Some(admin),
        s.pending_admin is None,
        new_admin != admin,
    ensures
        ({
            let proposed = (Call::TransferAdmin { admin, new_admin }).after(s, now);
            let cancel = Call::CancelTransferAdmin { admin };
            &&& cancel.fault(proposed, later) is None
            &&& cancel.after(proposed, later) == s
        }),
{
}

/// Whether nobody is, or can become, the administrator.
pub open spec fn unadministered(s: VaultState) -> bool {
    s.initialized && s.admin is None && s.pending_admin is None
}

/// Renouncing the role leaves nobody who is, or can become, the administrator.
pub proof fn law_renouncing_gives_the_role_up(s: VaultState, now: u64, admin: Address)
    requires
        s.initialized,
        s.admin == Some(admin),
    ensures
        unadministered((Call::RenounceAdmin { admin }).after(s, now)),
{
}

/// A role that was given up is gone for good: whatever calls are made, there is no administrator
/// again, and every reserved call answers `Unauthorized`.
pub proof fn law_renounced_for_good(s: VaultState, steps: Seq<Step>)
    requires
        unadministered(s),
    ensures
        unadministered(calls::run(s, steps)),
        forall|call: Call, now: u64|
            reserved(call) ==> #[trigger] call.fault(calls::run(s, steps), now) == Some(
                VaultError::Unauthorized,
            ),
    decreases steps.len(),
{
    if steps.len() > 0 {
        law_renounced_for_good(s, steps.drop_last());
    }
}

} // verus!
