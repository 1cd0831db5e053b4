//! The records of the vault.

use vstd::prelude::*;

use crate::constants::MAX_LOCK_DURATION_SECS;
use crate::env::{Effect, Env};
use crate::errors::VaultError;
use crate::table::Table;
use crate::types::{Address, DepositKey, VaultEntry, VaultKey};

verus! {

/// For how many ledgers a deposit is kept alive whenever it is written.
pub const BUMP_TARGET: u32 = 31_536_000;

/// The time from one ledger to the next, in seconds.
pub const LEDGER_INTERVAL_SECS: u64 = 5;

/// A deposit is kept alive for no less than the longest lock that is possible by default.
pub proof fn law_bump_target_covers_the_longest_lock()
    ensures
        BUMP_TARGET * LEDGER_INTERVAL_SECS >= MAX_LOCK_DURATION_SECS,
{
}

/// The records of the vault. A record that is not there is `None`, or missing from
/// its table.
pub struct Storage {
    pub admin: Option<Address>,
    pub pending_admin: Option<Address>,
    pub initialized: bool,
    pub max_deposit: Option<i128>,
    pub max_lock_secs: Option<u64>,
    pub fee_recipient: Option<Address>,
    /// For each depositor, the number of the next deposit.
    pub next_ids: Table<Address, u32>,
    pub deposits: Table<DepositKey, VaultEntry>,
    pub depositors: Vec<Address>,
    pub beneficiaries: Table<Address, Address>,
}

/// The contents of the vault's records.
#[verifier::ext_equal]
pub struct VaultState {
    pub admin: Option<Address>,
    pub pending_admin: Option<Address>,
    pub initialized: bool,
    pub max_deposit: Option<i128>,
    pub max_lock_secs: Option<u64>,
    pub fee_recipient: Option<Address>,
    pub next_ids: Map<Address, u32>,
    pub deposits: Map<DepositKey, VaultEntry>,
    pub depositors: Seq<Address>,
    pub beneficiaries: Map<Address, Address>,
}

/// Holds of every address but `address`.
pub open spec fn other_than(address: Address) -> spec_fn(Address) -> bool {
    |a: Address| a != address
}

impl VaultState {
    /// No records at all.
    pub open spec fn empty() -> VaultState {
        VaultState {
            admin: None,
            pending_admin: None,
            initialized: false,
            max_deposit: None,
            max_lock_secs: None,
            fee_recipient: None,
            next_ids: Map::empty(),
            deposits: Map::empty(),
            depositors: Seq::empty(),
            beneficiaries: Map::empty(),
        }
    }

    /// The deposit of `depositor` with the number `deposit_id`, if it is active.
    pub open spec fn deposit(self, depositor: Address, deposit_id: u32) -> Option<VaultEntry> {
        self.deposits.get(DepositKey { depositor, deposit_id })
    }

    /// The number that the next deposit of `depositor` will have.
    pub open spec fn next_id(self, depositor: Address) -> u32 {
        match self.next_ids.get(depositor) {
            Some(id) => id,
            None => 0,
        }
    }

    /// These records with the administrator replaced.
    pub open spec fn with_admin(self, admin: Option<Address>) -> VaultState {
        VaultState { admin, ..self }
    }

    /// These records with the proposed administrator replaced.
    pub open spec fn with_pending_admin(self, pending_admin: Option<Address>) -> VaultState {
        VaultState { pending_admin, ..self }
    }

    /// These records with the next deposit of `depositor` numbered `id`.
    pub open spec fn with_next_id(self, depositor: Address, id: u32) -> VaultState {
        VaultState { next_ids: self.next_ids.insert(depositor, id), ..self }
    }

    /// These records with a deposit written.
    pub open spec fn with_deposit(
        self,
        depositor: Address,
        deposit_id: u32,
        entry: VaultEntry,
    ) -> VaultState {
        VaultState {
            deposits: self.deposits.insert(DepositKey { depositor, deposit_id }, entry),
            ..self
        }
    }

    /// These records with a deposit deleted.
    pub open spec fn without_deposit(self, depositor: Address, deposit_id: u32) -> VaultState {
        VaultState {
            deposits: self.deposits.remove(DepositKey { depositor, deposit_id }),
            ..self
        }
    }

    /// These records with `depositor` at the end of the list, unless already listed.
    pub open spec fn with_depositor(self, depositor: Address) -> VaultState {
        if self.depositors.contains(depositor) {
            self
        } else {
            VaultState { depositors: self.depositors.push(depositor), ..self }
        }
    }

    /// These records with `depositor` taken off the list; the others keep their order.
    pub open spec fn without_depositor(self, depositor: Address) -> VaultState {
        VaultState { depositors: self.depositors.filter(other_than(depositor)), ..self }
    }

    /// These records with a beneficiary written.
    pub open spec fn with_beneficiary(self, depositor: Address, beneficiary: Address) -> VaultState {
        VaultState { beneficiaries: self.beneficiaries.insert(depositor, beneficiary), ..self }
    }

    /// These records with a beneficiary deleted.
    pub open spec fn without_beneficiary(self, depositor: Address) -> VaultState {
        VaultState { beneficiaries: self.beneficiaries.remove(depositor), ..self }
    }
}

impl View for Storage {
    type V = VaultState;

    open spec fn view(&self) -> VaultState {
        VaultState {
            admin: self.admin,
            pending_admin: self.pending_admin,
            initialized: self.initialized,
            max_deposit: self.max_deposit,
            max_lock_secs: self.max_lock_secs,
            fee_recipient: self.fee_recipient,
            next_ids: self.next_ids@,
            deposits: self.deposits@,
            depositors: self.depositors@,
            beneficiaries: self.beneficiaries@,
        }
    }
}

impl Storage {
    /// No records at all.
    pub fn new() -> (storage: Storage)
        ensures
            storage@ == VaultState::empty(),
    {
        Storage {
            admin: None,
            pending_admin: None,
            initialized: false,
            max_deposit: None,
            max_lock_secs: None,
            fee_recipient: None,
            next_ids: Table::new(),
            deposits: Table::new(),
            depositors: Vec::new(),
            beneficiaries: Table::new(),
        }
    }
}

// ----------------------------------------------------------------
//  Administration and limits
// ----------------------------------------------------------------

pub(crate) fn set_initialized(env: &mut Env)
    ensures
        final(env).follows(
            *old(env),
            (VaultState { initialized: true, ..old(env).storage@ }),
            seq![Effect::Store(VaultKey::Initialized)],
        ),
{
    env.storage.initialized = true;
    env.store(VaultKey::Initialized);
}

pub(crate) fn set_admin(env: &mut Env, admin: Address)
    ensures
        final(env).follows(
            *old(env),
            old(env).storage@.with_admin(Some(admin)),
            seq![Effect::Store(VaultKey::Admin)],
        ),
{
    env.storage.admin = Some(admin);
    env.store(VaultKey::Admin);
}

pub(crate) fn remove_admin(env: &mut Env)
    ensures
        final(env).follows(
            *old(env),
            old(env).storage@.with_admin(None),
            seq![Effect::Store(VaultKey::Admin)],
        ),
{
    env.storage.admin = None;
    env.store(VaultKey::Admin);
}

/// Fails with `Unauthorized` unless `admin` is the administrator.
pub(crate) fn require_admin(env: &Env, admin: Address) -> (r: Result<(), VaultError>)
    ensures
        r == (if env.storage@.admin == Some(admin) {
            Ok::<(), VaultError>(())
        } else {
            Err::<(), VaultError>(VaultError::Unauthorized)
        }),
{
    match env.storage.admin {
        Some(stored) => if stored == admin {
            Ok(())
        } else {
            Err(VaultError::Unauthorized)
        },
        None => Err(VaultError::Unauthorized),
    }
}

pub(crate) fn set_pending_admin(env: &mut Env, new_admin: Address)
    ensures
        final(env).follows(
            *old(env),
            old(env).storage@.with_pending_admin(Some(new_admin)),
            seq![Effect::Store(VaultKey::PendingAdmin)],
        ),
{
    env.storage.pending_admin = Some(new_admin);
    env.store(VaultKey::PendingAdmin);
}

pub(crate) fn remove_pending_admin(env: &mut Env)
    ensures
        final(env).follows(
            *old(env),
            old(env).storage@.with_pending_admin(None),
            seq![Effect::Store(VaultKey::PendingAdmin)],
        ),
{
    env.storage.pending_admin = None;
    env.store(VaultKey::PendingAdmin);
}

pub(crate) fn set_max_deposit(env: &mut Env, max_deposit: i128)
    ensures
        final(env).follows(
            *old(env),
            (VaultState { max_deposit: Some(max_deposit), ..old(env).storage@ }),
            seq![Effect::Store(VaultKey::MaxDeposit)],
        ),
{
    env.storage.max_deposit = Some(max_deposit);
    env.store(VaultKey::MaxDeposit);
}

pub(crate) fn set_max_lock_secs(env: &mut Env, max_lock_secs: u64)
    ensures
        final(env).follows(
            *old(env),
            (VaultState { max_lock_secs: Some(max_lock_secs), ..old(env).storage@ }),
            seq![Effect::Store(VaultKey::MaxLockSecs)],
        ),
{
    env.storage.max_lock_secs = Some(max_lock_secs);
    env.store(VaultKey::MaxLockSecs);
}

// ----------------------------------------------------------------
//  Deposits
// ----------------------------------------------------------------

/// The number that the next deposit of `depositor` will have.
pub(crate) fn peek_deposit_id(env: &Env, depositor: Address) -> (id: u32)
    ensures
        id == env.storage@.next_id(depositor),
{
    match env.storage.next_ids.get(depositor) {
        Some(id) => id,
        None => 0,
    }
}

/// Takes the next deposit number of `depositor`.
pub(crate) fn next_deposit_id(env: &mut Env, depositor: Address) -> (id: u32)
    requires
        old(env).storage@.next_id(depositor) < u32::MAX,
    ensures
        id == old(env).storage@.next_id(depositor),
        final(env).follows(
            *old(env),
            old(env).storage@.with_next_id(depositor, (id + 1) as u32),
            seq![Effect::Store(VaultKey::DepositCounter(depositor))],
        ),
{
    let id: u32 = peek_deposit_id(env, depositor);
    env.storage.next_ids.set(depositor, id + 1);
    env.store(VaultKey::DepositCounter(depositor));
    id
}

pub(crate) fn get_deposit(env: &Env, depositor: Address, deposit_id: u32) -> (entry: Option<
    VaultEntry,
>)
    ensures
        entry == env.storage@.deposit(depositor, deposit_id),
{
    env.storage.deposits.get(DepositKey { depositor, deposit_id })
}

pub(crate) fn set_deposit(env: &mut Env, depositor: Address, deposit_id: u32, entry: VaultEntry)
    ensures
        final(env).follows(
            *old(env),
            old(env).storage@.with_deposit(depositor, deposit_id, entry),
            seq![
                Effect::Store(VaultKey::Deposit(depositor, deposit_id)),
                Effect::KeepAlive(VaultKey::Deposit(depositor, deposit_id), BUMP_TARGET),
            ],
        ),
{
    env.storage.deposits.set(DepositKey { depositor, deposit_id }, entry);
    let key = VaultKey::Deposit(depositor, deposit_id);
    env.store(key);
    env.keep_alive(key, BUMP_TARGET);
    assert(env.effects@ =~= old(env).effects@ + seq![
        Effect::Store(key),
        Effect::KeepAlive(key, BUMP_TARGET),
    ]);
}

pub(crate) fn remove_deposit(env: &mut Env, depositor: Address, deposit_id: u32)
    ensures
        final(env).follows(
            *old(env),
            old(env).storage@.without_deposit(depositor, deposit_id),
            seq![Effect::Store(VaultKey::Deposit(depositor, deposit_id))],
        ),
{
    env.storage.deposits.remove(DepositKey { depositor, deposit_id });
    env.store(VaultKey::Deposit(depositor, deposit_id));
}

// ----------------------------------------------------------------
//  The list of depositors
// ----------------------------------------------------------------

/// Whether `list` contains `address`.
fn lists(list: &Vec<Address>, address: Address) -> (b: bool)
    ensures
        b == list@.contains(address),
{
    let mut i: usize = 0;
    while i < list.len()
        invariant
            i <= list.len(),
            forall|j: int| 0 <= j < i ==> list@[j] != address,
        decreases list.len() - i,
    {
        if list[i] == address {
            return true;
        }
        i = i + 1;
    }
    false
}

pub(crate) fn add_depositor(env: &mut Env, depositor: Address)
    ensures
        final(env).follows(
            *old(env),
            old(env).storage@.with_depositor(depositor),
            seq![Effect::Store(VaultKey::Depositors)],
        ),
{
    if !lists(&env.storage.depositors, depositor) {
        env.storage.depositors.push(depositor);
    }
    env.store(VaultKey::Depositors);
}

pub(crate) fn remove_depositor(env: &mut Env, depositor: Address)
    ensures
        final(env).follows(
            *old(env),
            old(env).storage@.without_depositor(depositor),
            seq![Effect::Store(VaultKey::Depositors)],
        ),
{
    let mut kept: Vec<Address> = Vec::new();
    let mut i: usize = 0;
    while i < env.storage.depositors.len()
        invariant
            i <= env.storage.depositors.len(),
            kept@ == env.storage.depositors@.take(i as int).filter(other_than(depositor)),
            *env == *old(env),
        decreases env.storage.depositors.len() - i,
    {
        let listed = env.storage.depositors[i];
        proof {
            let all = env.storage.depositors@;
            assert(all.take(i + 1) =~= all.take(i as int).push(listed));
            all.take(i as int).lemma_filter_push(listed, other_than(depositor));
        }
        if listed != depositor {
            kept.push(listed);
        }
        i = i + 1;
    }
    assert(env.storage.depositors@.take(i as int) =~= env.storage.depositors@);
    env.storage.depositors = kept;
    env.store(VaultKey::Depositors);
}

/// The listed depositors from position `offset` on, at most `limit` of them.
pub(crate) fn get_depositors_page(env: &Env, offset: u32, limit: u32) -> (page: Vec<Address>)
    ensures
        page@ == depositors_page(env.storage@.depositors, offset as int, limit as int),
{
    let all = &env.storage.depositors;
    let mut page: Vec<Address> = Vec::new();
    let mut i: usize = offset as usize;
    while i < all.len() && page.len() < limit as usize
        invariant
            all@ == env.storage@.depositors,
            offset <= i,
            page.len() == i - offset,
            page.len() <= limit,
            offset < i ==> i <= all.len(),
            forall|j: int| 0 <= j < page.len() ==> page@[j] == all@[offset + j],
        decreases all.len() - i,
    {
        page.push(all[i]);
        i = i + 1;
    }
    assert(page@ =~= depositors_page(all@, offset as int, limit as int));
    page
}

/// The part of `all` from position `offset` on, at most `limit` long: what is left of
/// it where it ends earlier, and nothing where it ends before `offset`.
pub open spec fn depositors_page(all: Seq<Address>, offset: int, limit: int) -> Seq<Address> {
    if offset >= all.len() {
        Seq::empty()
    } else if offset + limit >= all.len() {
        all.skip(offset)
    } else {
        all.subrange(offset, offset + limit)
    }
}

// ----------------------------------------------------------------
//  Beneficiaries
// ----------------------------------------------------------------

pub(crate) fn get_beneficiary(env: &Env, depositor: Address) -> (beneficiary: Option<Address>)
    ensures
        beneficiary == env.storage@.beneficiaries.get(depositor),
{
    env.storage.beneficiaries.get(depositor)
}

pub(crate) fn set_beneficiary(env: &mut Env, depositor: Address, beneficiary: Address)
    ensures
        final(env).follows(
            *old(env),
            old(env).storage@.with_beneficiary(depositor, beneficiary),
            seq![Effect::Store(VaultKey::Beneficiary(depositor))],
        ),
{
    env.storage.beneficiaries.set(depositor, beneficiary);
    env.store(VaultKey::Beneficiary(depositor));
}

pub(crate) fn remove_beneficiary(env: &mut Env, depositor: Address)
    ensures
        final(env).follows(
            *old(env),
            old(env).storage@.without_beneficiary(depositor),
            seq![Effect::Store(VaultKey::Beneficiary(depositor))],
        ),
{
    env.storage.beneficiaries.remove(depositor);
    env.store(VaultKey::Beneficiary(depositor));
}

} // verus!
