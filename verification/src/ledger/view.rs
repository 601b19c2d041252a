//! The records of a store as sequences, and what holds of them at all times.

use vstd::prelude::*;
use crate::ledger::accounting::{
    deposited_behind, deposited_on, locked_by_events, locked_by_votes, recorded_locked,
    recorded_pot, recorded_vault,
};
use crate::pubkey::Pubkey;
use crate::state::appeal::Appellation;
use crate::state::contract_state::State;
use crate::state::event::{Event, EventMeta};
use crate::state::option::EventOption;
use crate::state::participation::Participation;
use crate::state::user::User;

verus! {

/// All records of a store, each table in the order in which the records were
/// created.
pub struct LedgerView {
    /// The configuration, once it is set.
    pub state: Option<State>,
    /// Keyed by `payer`.
    pub users: Seq<User>,
    /// Keyed by `id`.
    pub events: Seq<Event>,
    /// The descriptive data of each event, in the order of `events`.
    pub event_metas: Seq<EventMeta>,
    /// Keyed by `event_id` and `index`.
    pub options: Seq<EventOption>,
    /// Keyed by `event_id` and `payer`.
    pub participations: Seq<Participation>,
    /// Keyed by `event_id`.
    pub appellations: Seq<Appellation>,
}

impl LedgerView {
    /// Whether the user record at `i` is that of `key`.
    pub open spec fn is_user(self, i: int, key: Pubkey) -> bool {
        0 <= i < self.users.len() && self.users[i].payer == key
    }

    /// Whether the record at `i` is the event `id`.
    pub open spec fn is_event(self, i: int, id: u128) -> bool {
        0 <= i < self.events.len() && self.events[i].id == id
    }

    /// Whether the record at `i` is the option `index` of the event
    /// `event_id`.
    pub open spec fn is_option(self, i: int, event_id: u128, index: u8) -> bool {
        0 <= i < self.options.len() && self.options[i].event_id == event_id
            && self.options[i].index == index
    }

    /// Whether the record at `i` is the vote of `payer` on the event
    /// `event_id`.
    pub open spec fn is_participation(self, i: int, event_id: u128, payer: Pubkey) -> bool {
        0 <= i < self.participations.len() && self.participations[i].event_id == event_id
            && self.participations[i].payer == payer
    }

    /// Whether the record at `i` is the dispute record of the event
    /// `event_id`.
    pub open spec fn is_appellation(self, i: int, event_id: u128) -> bool {
        0 <= i < self.appellations.len() && self.appellations[i].event_id == event_id
    }

    /// Where the user record of `key` stands, if there is one.
    pub open spec fn user_index(self, key: Pubkey) -> Option<int> {
        if exists|i: int| self.is_user(i, key) {
            Some(choose|i: int| self.is_user(i, key))
        } else {
            None
        }
    }

    /// Where the event `id` stands, if it exists.
    pub open spec fn event_index(self, id: u128) -> Option<int> {
        if exists|i: int| self.is_event(i, id) {
            Some(choose|i: int| self.is_event(i, id))
        } else {
            None
        }
    }

    /// Where the option `index` of the event `event_id` stands, if it exists.
    pub open spec fn option_index(self, event_id: u128, index: u8) -> Option<int> {
        if exists|i: int| self.is_option(i, event_id, index) {
            Some(choose|i: int| self.is_option(i, event_id, index))
        } else {
            None
        }
    }

    /// Where the vote of `payer` on the event `event_id` stands, if there is
    /// one.
    pub open spec fn participation_index(self, event_id: u128, payer: Pubkey) -> Option<int> {
        if exists|i: int| self.is_participation(i, event_id, payer) {
            Some(choose|i: int| self.is_participation(i, event_id, payer))
        } else {
            None
        }
    }

    /// Where the dispute record of the event `event_id` stands, if there is
    /// one.
    pub open spec fn appellation_index(self, event_id: u128) -> Option<int> {
        if exists|i: int| self.is_appellation(i, event_id) {
            Some(choose|i: int| self.is_appellation(i, event_id))
        } else {
            None
        }
    }

    /// The user record of `key`, if there is one.
    pub open spec fn user(self, key: Pubkey) -> Option<User> {
        match self.user_index(key) {
            Some(i) => Some(self.users[i]),
            None => None,
        }
    }

    /// The event `id`, if it exists.
    pub open spec fn event(self, id: u128) -> Option<Event> {
        match self.event_index(id) {
            Some(i) => Some(self.events[i]),
            None => None,
        }
    }

    /// The descriptive data of the event `id`, if it exists.
    pub open spec fn event_meta(self, id: u128) -> Option<EventMeta> {
        match self.event_index(id) {
            Some(i) => Some(self.event_metas[i]),
            None => None,
        }
    }

    /// The option `index` of the event `event_id`, if it exists.
    pub open spec fn option(self, event_id: u128, index: u8) -> Option<EventOption> {
        match self.option_index(event_id, index) {
            Some(i) => Some(self.options[i]),
            None => None,
        }
    }

    /// The vote of `payer` on the event `event_id`, if there is one.
    pub open spec fn participation(self, event_id: u128, payer: Pubkey) -> Option<Participation> {
        match self.participation_index(event_id, payer) {
            Some(i) => Some(self.participations[i]),
            None => None,
        }
    }

    /// The dispute record of the event `event_id`, if there is one.
    pub open spec fn appellation(self, event_id: u128) -> Option<Appellation> {
        match self.appellation_index(event_id) {
            Some(i) => Some(self.appellations[i]),
            None => None,
        }
    }

    /// No two records of a table have the same key.
    pub open spec fn keys_unique(self) -> bool {
        &&& forall|i: int, j: int|
            #![trigger self.users[i], self.users[j]]
            0 <= i < j < self.users.len() ==> self.users[i].payer != self.users[j].payer
        &&& forall|i: int, j: int|
            #![trigger self.events[i], self.events[j]]
            0 <= i < j < self.events.len() ==> self.events[i].id != self.events[j].id
        &&& forall|i: int, j: int|
            #![trigger self.options[i], self.options[j]]
            0 <= i < j < self.options.len() ==> !(self.options[i].event_id
                == self.options[j].event_id && self.options[i].index == self.options[j].index)
        &&& forall|i: int, j: int|
            #![trigger self.participations[i], self.participations[j]]
            0 <= i < j < self.participations.len() ==> !(self.participations[i].event_id
                == self.participations[j].event_id && self.participations[i].payer
                == self.participations[j].payer)
        &&& forall|i: int, j: int|
            #![trigger self.appellations[i], self.appellations[j]]
            0 <= i < j < self.appellations.len() ==> self.appellations[i].event_id
                != self.appellations[j].event_id
    }

    /// Every event has valid dates, and its descriptive data beside it.
    pub open spec fn events_valid(self) -> bool {
        &&& self.event_metas.len() == self.events.len()
        &&& forall|i: int|
            0 <= i < self.events.len() ==> (#[trigger] self.events[i]).wf() && self.event_metas[i].id
                == self.events[i].id
    }

    /// The locked stake that is recorded for each key is what the votes and
    /// the events keep locked for it.
    pub open spec fn locked_stake_accounted(self) -> bool {
        forall|key: Pubkey| #[trigger]
            recorded_locked(self.users, key) == locked_by_votes(self.participations, key)
                + locked_by_events(self.events, key)
    }

    /// The vault balance that is recorded for each option is the sum of the
    /// deposits behind it.
    pub open spec fn vaults_hold_deposits(self) -> bool {
        forall|event_id: u128, index: u8| #[trigger]
            deposited_behind(self.participations, event_id, index) == recorded_vault(
                self.options,
                event_id,
                index,
            )
    }

    /// The pot that is recorded for each event is the sum of the deposits
    /// on it.
    pub open spec fn pots_hold_deposits(self) -> bool {
        forall|event_id: u128| #[trigger]
            deposited_on(self.participations, event_id) == recorded_pot(self.events, event_id)
    }

    /// What holds of a store at all times.
    pub open spec fn wf(self) -> bool {
        &&& self.keys_unique()
        &&& self.events_valid()
        &&& self.locked_stake_accounted()
        &&& self.vaults_hold_deposits()
        &&& self.pots_hold_deposits()
    }

    /// The store without any record.
    pub open spec fn empty() -> LedgerView {
        LedgerView {
            state: None,
            users: Seq::empty(),
            events: Seq::empty(),
            event_metas: Seq::empty(),
            options: Seq::empty(),
            participations: Seq::empty(),
            appellations: Seq::empty(),
        }
    }
}

impl LedgerView {
    /// A key names one user record at most.
    pub proof fn lemma_user_index(self, i: int, key: Pubkey)
        requires
            self.keys_unique(),
            self.is_user(i, key),
        ensures
            self.user_index(key) == Some(i),
    {
        let c = choose|c: int| self.is_user(c, key);
        if c < i {
            assert(self.users[c].payer != self.users[i].payer);
        } else if i < c {
            assert(self.users[i].payer != self.users[c].payer);
        }
    }

    /// An identifier names one event at most.
    pub proof fn lemma_event_index(self, i: int, id: u128)
        requires
            self.keys_unique(),
            self.is_event(i, id),
        ensures
            self.event_index(id) == Some(i),
    {
        let c = choose|c: int| self.is_event(c, id);
        if c < i {
            assert(self.events[c].id != self.events[i].id);
        } else if i < c {
            assert(self.events[i].id != self.events[c].id);
        }
    }

    /// An event has one option of each index at most.
    pub proof fn lemma_option_index(self, i: int, event_id: u128, index: u8)
        requires
            self.keys_unique(),
            self.is_option(i, event_id, index),
        ensures
            self.option_index(event_id, index) == Some(i),
    {
        let c = choose|c: int| self.is_option(c, event_id, index);
        if c < i {
            assert(!(self.options[c].event_id == self.options[i].event_id && self.options[c].index
                == self.options[i].index));
        } else if i < c {
            assert(!(self.options[i].event_id == self.options[c].event_id && self.options[i].index
                == self.options[c].index));
        }
    }

    /// A user has one vote on each event at most.
    pub proof fn lemma_participation_index(self, i: int, event_id: u128, payer: Pubkey)
        requires
            self.keys_unique(),
            self.is_participation(i, event_id, payer),
        ensures
            self.participation_index(event_id, payer) == Some(i),
    {
        let c = choose|c: int| self.is_participation(c, event_id, payer);
        if c < i {
            assert(!(self.participations[c].event_id == self.participations[i].event_id
                && self.participations[c].payer == self.participations[i].payer));
        } else if i < c {
            assert(!(self.participations[i].event_id == self.participations[c].event_id
                && self.participations[i].payer == self.participations[c].payer));
        }
    }

    /// An event has one dispute record at most.
    pub proof fn lemma_appellation_index(self, i: int, event_id: u128)
        requires
            self.keys_unique(),
            self.is_appellation(i, event_id),
        ensures
            self.appellation_index(event_id) == Some(i),
    {
        let c = choose|c: int| self.is_appellation(c, event_id);
        if c < i {
            assert(self.appellations[c].event_id != self.appellations[i].event_id);
        } else if i < c {
            assert(self.appellations[i].event_id != self.appellations[c].event_id);
        }
    }
}

} // verus!
