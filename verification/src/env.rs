//! What a call sees of the ledger, and what it asks of it.

use vstd::prelude::*;

use crate::events::Event;
use crate::storage::{Storage, VaultState};
use crate::types::{Address, VaultKey};

verus! {

/// A payment in a token.
#[derive(Clone, Copy, Debug, PartialEq, Eq)]
pub struct Transfer {
    pub token: Address,
    pub from: Address,
    pub to: Address,
    pub amount: i128,
}

/// Something that the ledger has to do for a call. A call as a whole takes effect
/// only if the ledger can do everything that it asks for, in the order in which it
/// asks.
#[derive(Clone, Copy, Debug, PartialEq, Eq)]
pub enum Effect {
    /// Check that this address has authorized the call.
    RequireAuth(Address),
    /// Write the record under this key as the vault now holds it, or delete it where
    /// the vault no longer holds one. How long a record stays alive that was there
    /// before does not change when it is written.
    Store(VaultKey),
    /// Keep the record under this key alive for at least so many ledgers from now on. A
    /// record that lives longer already is left as it is.
    KeepAlive(VaultKey, u32),
    /// Carry out this payment.
    Transfer(Transfer),
    /// Publish this event.
    Publish(Event),
}

/// The ledger as a call finds it, and the effects that calls have asked for so far.
pub struct Env {
    /// The address of the vault itself.
    pub contract: Address,
    /// The time of the ledger, in seconds.
    pub timestamp: u64,
    /// The records of the vault.
    pub storage: Storage,
    /// What the ledger has to do, in this order.
    pub effects: Vec<Effect>,
}

impl Env {
    /// The vault at the address `contract`, before it holds any record.
    pub fn new(contract: Address, timestamp: u64) -> (env: Env)
        ensures
            env.contract == contract,
            env.timestamp == timestamp,
            env.storage@ == VaultState::empty(),
            env.effects@ == Seq::<Effect>::empty(),
    {
        Env { contract, timestamp, storage: Storage::new(), effects: Vec::new() }
    }

    /// Whether `self` is `before` with its records changed to `state` and with
    /// `effects` asked for.
    pub open spec fn follows(self, before: Env, state: VaultState, effects: Seq<Effect>) -> bool {
        &&& self.contract == before.contract
        &&& self.timestamp == before.timestamp
        &&& self.storage@ == state
        &&& self.effects@ == before.effects@ + effects
    }

    /// Asks for the authorization of `address`.
    pub(crate) fn require_auth(&mut self, address: Address)
        ensures
            final(self).follows(
                *old(self),
                old(self).storage@,
                seq![Effect::RequireAuth(address)],
            ),
    {
        self.effects.push(Effect::RequireAuth(address));
        assert(self.effects@ =~= old(self).effects@ + seq![Effect::RequireAuth(address)]);
    }

    /// Asks for the record under `key` to be written.
    pub(crate) fn store(&mut self, key: VaultKey)
        ensures
            final(self).follows(*old(self), old(self).storage@, seq![Effect::Store(key)]),
    {
        self.effects.push(Effect::Store(key));
        assert(self.effects@ =~= old(self).effects@ + seq![Effect::Store(key)]);
    }

    /// Asks for the record under `key` to be kept alive for `ledgers`.
    pub(crate) fn keep_alive(&mut self, key: VaultKey, ledgers: u32)
        ensures
            final(self).follows(
                *old(self),
                old(self).storage@,
                seq![Effect::KeepAlive(key, ledgers)],
            ),
    {
        self.effects.push(Effect::KeepAlive(key, ledgers));
        assert(self.effects@ =~= old(self).effects@ + seq![Effect::KeepAlive(key, ledgers)]);
    }

    /// Asks for a payment of `amount` of `token`.
    pub(crate) fn transfer(&mut self, token: Address, from: Address, to: Address, amount: i128)
        ensures
            final(self).follows(
                *old(self),
                old(self).storage@,
                seq![Effect::Transfer(Transfer { token, from, to, amount })],
            ),
    {
        self.effects.push(Effect::Transfer(Transfer { token, from, to, amount }));
        assert(self.effects@ =~= old(self).effects@ + seq![
            Effect::Transfer(Transfer { token, from, to, amount }),
        ]);
    }

    /// Asks for `event` to be published.
    pub(crate) fn publish(&mut self, event: Event)
        ensures
            final(self).follows(*old(self), old(self).storage@, seq![Effect::Publish(event)]),
    {
        self.effects.push(Effect::Publish(event));
        assert(self.effects@ =~= old(self).effects@ + seq![Effect::Publish(event)]);
    }
}

} // verus!
