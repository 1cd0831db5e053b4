//! The events that the vault publishes.

use vstd::prelude::*;

use crate::types::Address;

verus! {

/// One item of an event's data.
#[derive(Clone, Copy, Debug, PartialEq, Eq)]
pub enum Datum {
    /// An address.
    Address(Address),
    /// An amount of a token.
    Amount(i128),
    /// A time, in seconds.
    Time(u64),
    /// The number of a deposit.
    Number(u32),
}

/// An event. It is published under its name and the addresses among its topics;
/// the fields that are no topic are its data. Data of one item are that item, data of
/// several items are a tuple of them in their order, and no data are the empty tuple.
#[derive(Clone, Copy, Debug, PartialEq, Eq)]
pub enum Event {
    /// A deposit was made.
    Deposit { depositor: Address, token: Address, amount: i128, unlock_time: u64 },
    /// A deposit was renewed: its new total and its new unlock time.
    DepositRenewed { depositor: Address, token: Address, amount: i128, unlock_time: u64 },
    /// A deposit was cancelled early: its amount, and the penalty paid out of it.
    DepositCancelled { depositor: Address, token: Address, amount: i128, penalty: i128 },
    /// The lock of a deposit was extended.
    LockExtended {
        depositor: Address,
        deposit_id: u32,
        old_unlock_time: u64,
        new_unlock_time: u64,
    },
    /// A deposit was withdrawn.
    Withdraw { depositor: Address, token: Address, amount: i128 },
    /// The administrator returned a deposit.
    EmergencyWithdraw {
        admin: Address,
        depositor: Address,
        token: Address,
        amount: i128,
        unlock_time: u64,
    },
    /// The administrator returned a deposit as part of a batch.
    BatchEmergencyWithdrawItem {
        admin: Address,
        depositor: Address,
        token: Address,
        amount: i128,
        unlock_time: u64,
    },
    /// The administrator proposed a successor.
    AdminTransferInitiated { admin: Address, new_admin: Address },
    /// The proposed successor took over.
    AdminTransferAccepted { new_admin: Address },
    /// The administrator withdrew the proposal.
    AdminTransferCancelled { admin: Address },
    /// The administrator gave the role up.
    AdminRenounced { admin: Address },
}

impl Event {
    /// The name under which the event is published.
    pub open spec fn spec_name(self) -> Seq<char> {
        match self {
            Event::Deposit { .. } => "deposit"@,
            Event::DepositRenewed { .. } => "dep_renew"@,
            Event::DepositCancelled { .. } => "dep_cancel"@,
            Event::LockExtended { .. } => "lock_ext"@,
            Event::Withdraw { .. } => "withdraw"@,
            Event::EmergencyWithdraw { .. } => "emrg_wdraw"@,
            Event::BatchEmergencyWithdrawItem { .. } => "batch_emrg"@,
            Event::AdminTransferInitiated { .. } => "adm_xfr_init"@,
            Event::AdminTransferAccepted { .. } => "adm_xfr_accept"@,
            Event::AdminTransferCancelled { .. } => "adm_xfr_cancel"@,
            Event::AdminRenounced { .. } => "adm_renounce"@,
        }
    }

    /// The addresses that follow the name among the topics.
    pub open spec fn spec_topics(self) -> Seq<Address> {
        match self {
            Event::Deposit { depositor, token, .. } => seq![depositor, token],
            Event::DepositRenewed { depositor, token, .. } => seq![depositor, token],
            Event::DepositCancelled { depositor, token, .. } => seq![depositor, token],
            Event::LockExtended { depositor, .. } => seq![depositor],
            Event::Withdraw { depositor, token, .. } => seq![depositor, token],
            Event::EmergencyWithdraw { admin, depositor, .. } => seq![admin, depositor],
            Event::BatchEmergencyWithdrawItem { admin, depositor, .. } => seq![admin, depositor],
            Event::AdminTransferInitiated { admin, new_admin } => seq![admin, new_admin],
            Event::AdminTransferAccepted { new_admin } => seq![new_admin],
            Event::AdminTransferCancelled { admin } => seq![admin],
            Event::AdminRenounced { admin } => seq![admin],
        }
    }

    /// The data of the event.
    pub open spec fn spec_data(self) -> Seq<Datum> {
        match self {
            Event::Deposit { amount, unlock_time, .. } => seq![
                Datum::Amount(amount),
                Datum::Time(unlock_time),
            ],
            Event::DepositRenewed { amount, unlock_time, .. } => seq![
                Datum::Amount(amount),
                Datum::Time(unlock_time),
            ],
            Event::DepositCancelled { amount, penalty, .. } => seq![
                Datum::Amount(amount),
                Datum::Amount(penalty),
            ],
            Event::LockExtended { deposit_id, old_unlock_time, new_unlock_time, .. } => seq![
                Datum::Number(deposit_id),
                Datum::Time(old_unlock_time),
                Datum::Time(new_unlock_time),
            ],
            Event::Withdraw { amount, .. } => seq![Datum::Amount(amount)],
            Event::EmergencyWithdraw { token, amount, unlock_time, .. } => seq![
                Datum::Address(token),
                Datum::Amount(amount),
                Datum::Time(unlock_time),
            ],
            Event::BatchEmergencyWithdrawItem { token, amount, unlock_time, .. } => seq![
                Datum::Address(token),
                Datum::Amount(amount),
                Datum::Time(unlock_time),
            ],
            Event::AdminTransferInitiated { .. } => Seq::empty(),
            Event::AdminTransferAccepted { .. } => Seq::empty(),
            Event::AdminTransferCancelled { .. } => Seq::empty(),
            Event::AdminRenounced { .. } => Seq::empty(),
        }
    }

    /// The name under which the event is published.
    pub fn name(&self) -> (name: &'static str)
        ensures
            name@ == self.spec_name(),
    {
        match self {
            Event::Deposit { .. } => "deposit",
            Event::DepositRenewed { .. } => "dep_renew",
            Event::DepositCancelled { .. } => "dep_cancel",
            Event::LockExtended { .. } => "lock_ext",
            Event::Withdraw { .. } => "withdraw",
            Event::EmergencyWithdraw { .. } => "emrg_wdraw",
            Event::BatchEmergencyWithdrawItem { .. } => "batch_emrg",
            Event::AdminTransferInitiated { .. } => "adm_xfr_init",
            Event::AdminTransferAccepted { .. } => "adm_xfr_accept",
            Event::AdminTransferCancelled { .. } => "adm_xfr_cancel",
            Event::AdminRenounced { .. } => "adm_renounce",
        }
    }

    /// The addresses that follow the name among the topics.
    pub fn topics(&self) -> (topics: Vec<Address>)
        ensures
            topics@ == self.spec_topics(),
    {
        match *self {
            Event::Deposit { depositor, token, .. } => vec![depositor, token],
            Event::DepositRenewed { depositor, token, .. } => vec![depositor, token],
            Event::DepositCancelled { depositor, token, .. } => vec![depositor, token],
            Event::LockExtended { depositor, .. } => vec![depositor],
            Event::Withdraw { depositor, token, .. } => vec![depositor, token],
            Event::EmergencyWithdraw { admin, depositor, .. } => vec![admin, depositor],
            Event::BatchEmergencyWithdrawItem { admin, depositor, .. } => vec![admin, depositor],
            Event::AdminTransferInitiated { admin, new_admin } => vec![admin, new_admin],
            Event::AdminTransferAccepted { new_admin } => vec![new_admin],
            Event::AdminTransferCancelled { admin } => vec![admin],
            Event::AdminRenounced { admin } => vec![admin],
        }
    }

    /// The data of the event.
    pub fn data(&self) -> (data: Vec<Datum>)
        ensures
            data@ == self.spec_data(),
    {
        match *self {
            Event::Deposit { amount, unlock_time, .. } => vec![
                Datum::Amount(amount),
                Datum::Time(unlock_time),
            ],
            Event::DepositRenewed { amount, unlock_time, .. } => vec![
                Datum::Amount(amount),
                Datum::Time(unlock_time),
            ],
            Event::DepositCancelled { amount, penalty, .. } => vec![
                Datum::Amount(amount),
                Datum::Amount(penalty),
            ],
            Event::LockExtended { deposit_id, old_unlock_time, new_unlock_time, .. } => vec![
                Datum::Number(deposit_id),
                Datum::Time(old_unlock_time),
                Datum::Time(new_unlock_time),
            ],
            Event::Withdraw { amount, .. } => vec![Datum::Amount(amount)],
            Event::EmergencyWithdraw { token, amount, unlock_time, .. } => vec![
                Datum::Address(token),
                Datum::Amount(amount),
                Datum::Time(unlock_time),
            ],
            Event::BatchEmergencyWithdrawItem { token, amount, unlock_time, .. } => vec![
                Datum::Address(token),
                Datum::Amount(amount),
                Datum::Time(unlock_time),
            ],
            Event::AdminTransferInitiated { .. } => Vec::new(),
            Event::AdminTransferAccepted { .. } => Vec::new(),
            Event::AdminTransferCancelled { .. } => Vec::new(),
            Event::AdminRenounced { .. } => Vec::new(),
        }
    }
}

/// An event of a deposit is published under one name for each kind of event, the depositor and the
/// token, with the amount, and what else there is to tell of it, as data. That of an extension tells
/// no token and no amount, but the number of the deposit and both unlock times.
pub proof fn law_events_of_deposits_tell_all(
    depositor: Address,
    token: Address,
    amount: i128,
    unlock_time: u64,
    penalty: i128,
    deposit_id: u32,
    old_unlock_time: u64,
)
    ensures
        ({
            let made = Event::Deposit { depositor, token, amount, unlock_time };
            let renewed = Event::DepositRenewed { depositor, token, amount, unlock_time };
            let cancelled = Event::DepositCancelled { depositor, token, amount, penalty };
            let withdrawn = Event::Withdraw { depositor, token, amount };
            let extended = Event::LockExtended {
                depositor,
                deposit_id,
                old_unlock_time,
                new_unlock_time: unlock_time,
            };
            let (money, time) = (Datum::Amount(amount), Datum::Time(unlock_time));
            &&& made.spec_name() == "deposit"@
            &&& renewed.spec_name() == "dep_renew"@
            &&& cancelled.spec_name() == "dep_cancel"@
            &&& withdrawn.spec_name() == "withdraw"@
            &&& extended.spec_name() == "lock_ext"@
            &&& made.spec_topics() == seq![depositor, token] && made.spec_data() == seq![
                money,
                time,
            ]
            &&& renewed.spec_topics() == made.spec_topics() && renewed.spec_data()
                == made.spec_data()
            &&& cancelled.spec_topics() == made.spec_topics() && cancelled.spec_data() == seq![
                money,
                Datum::Amount(penalty),
            ]
            &&& withdrawn.spec_topics() == made.spec_topics() && withdrawn.spec_data() == seq![
                money,
            ]
            &&& extended.spec_topics() == seq![depositor] && extended.spec_data() == seq![
                Datum::Number(deposit_id),
                Datum::Time(old_unlock_time),
                time,
            ]
        }),
{
}

/// An event of the administrator is published under one name for each kind of event, the
/// administrator, and whom else it concerns. That of
/// a returned deposit has the deposit as data, whether it was part of a batch or not; the others
/// have none.
pub proof fn law_events_of_the_administrator_tell_all(
    admin: Address,
    other: Address,
    token: Address,
    amount: i128,
    unlock_time: u64,
)
    ensures
        ({
            let single = Event::EmergencyWithdraw {
                admin,
                depositor: other,
                token,
                amount,
                unlock_time,
            };
            let in_batch = Event::BatchEmergencyWithdrawItem {
                admin,
                depositor: other,
                token,
                amount,
                unlock_time,
            };
            let proposed = Event::AdminTransferInitiated { admin, new_admin: other };
            let accepted = Event::AdminTransferAccepted { new_admin: admin };
            let taken_back = Event::AdminTransferCancelled { admin };
            let renounced = Event::AdminRenounced { admin };
            &&& single.spec_name() == "emrg_wdraw"@
            &&& in_batch.spec_name() == "batch_emrg"@
            &&& proposed.spec_name() == "adm_xfr_init"@
            &&& accepted.spec_name() == "adm_xfr_accept"@
            &&& taken_back.spec_name() == "adm_xfr_cancel"@
            &&& renounced.spec_name() == "adm_renounce"@
            &&& single.spec_topics() == seq![admin, other] && single.spec_data() == seq![
                Datum::Address(token),
                Datum::Amount(amount),
                Datum::Time(unlock_time),
            ]
            &&& in_batch.spec_topics() == single.spec_topics() && in_batch.spec_data()
                == single.spec_data()
            &&& proposed.spec_topics() == seq![admin, other] && proposed.spec_data().len() == 0
            &&& accepted.spec_topics() == seq![admin] && accepted.spec_data().len() == 0
            &&& taken_back.spec_topics() == seq![admin] && taken_back.spec_data().len() == 0
            &&& renounced.spec_topics() == seq![admin] && renounced.spec_data().len() == 0
        }),
{
}

/// What is published of an event tells it apart from every other: no two events have the same
/// name, topics and data.
pub proof fn law_events_are_told_apart(a: Event, b: Event)
    requires
        a.spec_name() == b.spec_name(),
        a.spec_topics() == b.spec_topics(),
        a.spec_data() == b.spec_data(),
    ensures
        a == b,
{
    reveal_strlit("deposit");
    reveal_strlit("dep_renew");
    reveal_strlit("dep_cancel");
    reveal_strlit("lock_ext");
    reveal_strlit("withdraw");
    reveal_strlit("emrg_wdraw");
    reveal_strlit("batch_emrg");
    reveal_strlit("adm_xfr_init");
    reveal_strlit("adm_xfr_accept");
    reveal_strlit("adm_xfr_cancel");
    reveal_strlit("adm_renounce");
    let (ta, tb) = (a.spec_topics(), b.spec_topics());
    let (da, db) = (a.spec_data(), b.spec_data());
    let (na, nb) = (a.spec_name(), b.spec_name());
    assert(na.len() == nb.len() && na[0] == nb[0] && na[4] == nb[4] && na[8] == nb[8]);
    assert(ta[0] == tb[0] && ta[1] == tb[1]);
    assert(da[0] == db[0] && da[1] == db[1] && da[2] == db[2]);
}

} // verus!
