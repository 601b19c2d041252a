//! What the configuration and the life of events do to the records of a
//! store, and that they keep the store well-formed.

use vstd::prelude::*;
use crate::context::contract_state::UpdateContractState;
use crate::context::event::{
    change_refusal, new_event, new_event_meta, CancelEvent, CompleteEvent, CreateEvent,
    CreateEventArgs, UpdateEvent,
};
use crate::context::option::{creation_refusal, new_option, UpdateEventOption};
use crate::error::ProgramError;
use crate::ledger::accounting::{
    deposited_behind, deposited_on, event_weight, lemma_total_push, lemma_total_update,
    locked_by_events, locked_by_votes, pot_weight, recorded_locked, recorded_pot,
    recorded_vault, vault_weight,
};
use crate::ledger::view::LedgerView;
use crate::pubkey::Pubkey;
use crate::state::contract_state::State;
use crate::state::event::{Event, EventMeta};
use crate::state::option::EventOption;

verus! {

impl LedgerView {
    // -------------------------- Configuration -------------------------- //
    /// The result of the first configuration, asked for by `sender`. The
    /// ledger is configured once, by who may upgrade it.
    pub open spec fn initialize_contract_state_result(
        self,
        sender: Pubkey,
        upgrade_authority: Option<Pubkey>,
    ) -> Result<(), ProgramError> {
        if self.state is Some {
            Err(ProgramError::AccountAlreadyInUse)
        } else if upgrade_authority != Some(sender) {
            Err(ProgramError::AuthorityMismatch)
        } else {
            Ok(())
        }
    }

    /// The result of a change of the configuration, asked for by `sender`.
    pub open spec fn update_contract_state_result(self, sender: Pubkey) -> Result<
        (),
        ProgramError,
    > {
        match self.state {
            None => Err(ProgramError::AccountNotInitialized),
            Some(state) => match (UpdateContractState { authority: sender, state }).refusal() {
                Some(e) => Err(e),
                None => Ok(()),
            },
        }
    }

    /// The store with the configuration `state`, if `res` is a success.
    pub open spec fn configured(self, res: Result<(), ProgramError>, state: State) -> LedgerView {
        if res is Ok {
            LedgerView { state: Some(state), ..self }
        } else {
            self
        }
    }

    // ------------------------------ Events ----------------------------- //
    /// The result of creating the event `event_id` with `args`.
    pub open spec fn create_event_result(self, event_id: u128, args: CreateEventArgs) -> Result<
        (),
        ProgramError,
    > {
        if self.event_index(event_id) is Some {
            Err(ProgramError::AccountAlreadyInUse)
        } else {
            match CreateEvent::refusal(event_id, args) {
                Some(e) => Err(e),
                None => Ok(()),
            }
        }
    }

    /// The store after `sender` asked to create the event `event_id`.
    pub open spec fn after_create_event(
        self,
        sender: Pubkey,
        event_id: u128,
        args: CreateEventArgs,
    ) -> LedgerView {
        if self.create_event_result(event_id, args) is Ok {
            LedgerView {
                events: self.events.push(new_event(sender, event_id, args)),
                event_metas: self.event_metas.push(new_event_meta(event_id, args)),
                ..self
            }
        } else {
            self
        }
    }

    /// The records of a change to the event `event_id` by `sender`, if the
    /// event exists.
    pub open spec fn update_event_context(self, sender: Pubkey, event_id: u128) -> Option<
        UpdateEvent,
    > {
        match self.event_index(event_id) {
            Some(e) => Some(
                UpdateEvent {
                    authority: sender,
                    event: self.events[e],
                    event_meta: self.event_metas[e],
                },
            ),
            None => None,
        }
    }

    /// The result of a change to the descriptive data of the event
    /// `event_id`, asked for by `sender` at the time `now`.
    pub open spec fn update_event_meta_result(
        self,
        sender: Pubkey,
        event_id: u128,
        now: i64,
    ) -> Result<(), ProgramError> {
        match self.update_event_context(sender, event_id) {
            None => Err(ProgramError::AccountNotInitialized),
            Some(ctx) => match change_refusal(sender, ctx.event, now) {
                Some(e) => Err(e),
                None => Ok(()),
            },
        }
    }

    /// The result of moving the end date of the event `event_id` to
    /// `end_date`.
    pub open spec fn update_event_end_date_result(
        self,
        sender: Pubkey,
        event_id: u128,
        end_date: i64,
        now: i64,
    ) -> Result<(), ProgramError> {
        match self.update_event_context(sender, event_id) {
            None => Err(ProgramError::AccountNotInitialized),
            Some(ctx) => match ctx.end_date_refusal(end_date, now) {
                Some(e) => Err(e),
                None => Ok(()),
            },
        }
    }

    /// The result of setting the participation deadline of the event
    /// `event_id` to `deadline`.
    pub open spec fn update_event_participation_deadline_result(
        self,
        sender: Pubkey,
        event_id: u128,
        deadline: Option<i64>,
        now: i64,
    ) -> Result<(), ProgramError> {
        match self.update_event_context(sender, event_id) {
            None => Err(ProgramError::AccountNotInitialized),
            Some(ctx) => match ctx.deadline_refusal(deadline, now) {
                Some(e) => Err(e),
                None => Ok(()),
            },
        }
    }

    /// The result of canceling the event `event_id`, asked for by `sender`
    /// at the time `now`.
    pub open spec fn cancel_event_result(self, sender: Pubkey, event_id: u128, now: i64) -> Result<
        (),
        ProgramError,
    > {
        match self.event_index(event_id) {
            None => Err(ProgramError::AccountNotInitialized),
            Some(e) => match (CancelEvent { sender, event: self.events[e] }).refusal(now) {
                Some(e) => Err(e),
                None => Ok(()),
            },
        }
    }

    /// The result of declaring `result` the outcome of the event `event_id`,
    /// asked for by `sender` at the time `now`.
    pub open spec fn complete_event_result(
        self,
        sender: Pubkey,
        event_id: u128,
        result: u8,
        now: i64,
    ) -> Result<(), ProgramError> {
        match self.event_index(event_id) {
            None => Err(ProgramError::AccountNotInitialized),
            Some(e) => match (CompleteEvent { authority: sender, event: self.events[e] }).refusal(
                result,
                now,
            ) {
                Some(e) => Err(e),
                None => Ok(()),
            },
        }
    }

    /// The store in which the event `event_id` has become `event`, if `res`
    /// is a success.
    pub open spec fn with_event(
        self,
        res: Result<(), ProgramError>,
        event_id: u128,
        event: Event,
    ) -> LedgerView {
        if res is Ok {
            LedgerView { events: self.events.update(self.event_index(event_id)->0, event), ..self }
        } else {
            self
        }
    }

    /// The store in which the descriptive data of the event `event_id` has
    /// become `meta`, if `res` is a success.
    pub open spec fn with_event_meta(
        self,
        res: Result<(), ProgramError>,
        event_id: u128,
        meta: EventMeta,
    ) -> LedgerView {
        if res is Ok {
            LedgerView {
                event_metas: self.event_metas.update(self.event_index(event_id)->0, meta),
                ..self
            }
        } else {
            self
        }
    }

    // ----------------------------- Options ----------------------------- //
    /// The result of adding the option `index` to the event `event_id`,
    /// asked for by `sender` at the time `now`.
    pub open spec fn create_event_option_result(
        self,
        sender: Pubkey,
        event_id: u128,
        index: u8,
        now: i64,
    ) -> Result<(), ProgramError> {
        match self.event_index(event_id) {
            None => Err(ProgramError::AccountNotInitialized),
            Some(e) => if self.option_index(event_id, index) is Some {
                Err(ProgramError::AccountAlreadyInUse)
            } else {
                match creation_refusal(sender, self.events[e], index, now) {
                    Some(e) => Err(e),
                    None => Ok(()),
                }
            },
        }
    }

    /// The store after `sender` asked to add the option `index` to the event
    /// `event_id`.
    pub open spec fn after_create_event_option(
        self,
        sender: Pubkey,
        event_id: u128,
        index: u8,
        description: [u8; 256],
        now: i64,
    ) -> LedgerView {
        if self.create_event_option_result(sender, event_id, index, now) is Ok {
            let e = self.event_index(event_id)->0;
            LedgerView {
                events: self.events.update(
                    e,
                    Event {
                        option_count: (self.events[e].option_count + 1) as u8,
                        ..self.events[e]
                    },
                ),
                options: self.options.push(new_option(index, event_id, description)),
                ..self
            }
        } else {
            self
        }
    }

    /// The result of changing the option `index` of the event `event_id`,
    /// asked for by `sender` at the time `now`.
    pub open spec fn update_event_option_result(
        self,
        sender: Pubkey,
        event_id: u128,
        index: u8,
        now: i64,
    ) -> Result<(), ProgramError> {
        match (self.event_index(event_id), self.option_index(event_id, index)) {
            (Some(e), Some(o)) => match (UpdateEventOption {
                authority: sender,
                event: self.events[e],
                option: self.options[o],
            }).refusal(index, now) {
                Some(e) => Err(e),
                None => Ok(()),
            },
            _ => Err(ProgramError::AccountNotInitialized),
        }
    }

    /// The store after `sender` asked to describe the option `index` of the
    /// event `event_id` as `description`.
    pub open spec fn after_update_event_option(
        self,
        sender: Pubkey,
        event_id: u128,
        index: u8,
        description: [u8; 256],
        now: i64,
    ) -> LedgerView {
        if self.update_event_option_result(sender, event_id, index, now) is Ok {
            let o = self.option_index(event_id, index)->0;
            LedgerView {
                options: self.options.update(
                    o,
                    EventOption { description, ..self.options[o] },
                ),
                ..self
            }
        } else {
            self
        }
    }
}

// ------------------------- Changes of one table ------------------------ //

/// A new event with a new identifier, valid dates, no stake and an empty pot
/// keeps the store well-formed.
pub proof fn lemma_push_event(ledger: LedgerView, event: Event, meta: EventMeta)
    requires
        ledger.wf(),
        ledger.event_index(event.id) is None,
        event.wf(),
        event.stake == 0,
        event.total_amount == 0,
        meta.id == event.id,
    ensures
        (LedgerView {
            events: ledger.events.push(event),
            event_metas: ledger.event_metas.push(meta),
            ..ledger
        }).wf(),
{
    let after = LedgerView {
        events: ledger.events.push(event),
        event_metas: ledger.event_metas.push(meta),
        ..ledger
    };
    assert forall|i: int, j: int| 0 <= i < j < after.events.len() implies after.events[i].id
        != after.events[j].id by {
        if j == ledger.events.len() {
            assert(!ledger.is_event(i, event.id));
        }
    }
    assert forall|i: int| 0 <= i < after.events.len() implies (#[trigger] after.events[i]).wf()
        && after.event_metas[i].id == after.events[i].id by {
        if i < ledger.events.len() {
            assert(ledger.events[i].wf());
        }
    }
    assert forall|key: Pubkey| #[trigger]
        recorded_locked(after.users, key) == locked_by_votes(after.participations, key)
            + locked_by_events(after.events, key) by {
        lemma_total_push(ledger.events, event, event_weight(key));
        assert(recorded_locked(ledger.users, key) == locked_by_votes(ledger.participations, key)
            + locked_by_events(ledger.events, key));
    }
    assert forall|id: u128| #[trigger]
        deposited_on(after.participations, id) == recorded_pot(after.events, id) by {
        lemma_total_push(ledger.events, event, pot_weight(id));
        assert(deposited_on(ledger.participations, id) == recorded_pot(ledger.events, id));
    }
}

/// An event that keeps its identifier, its creator, its stake, its pot and
/// valid dates keeps the store well-formed.
pub proof fn lemma_update_event(ledger: LedgerView, e: int, event: Event)
    requires
        ledger.wf(),
        0 <= e < ledger.events.len(),
        event.id == ledger.events[e].id,
        event.authority == ledger.events[e].authority,
        event.stake == ledger.events[e].stake,
        event.total_amount == ledger.events[e].total_amount,
        event.wf(),
    ensures
        (LedgerView { events: ledger.events.update(e, event), ..ledger }).wf(),
{
    let after = LedgerView { events: ledger.events.update(e, event), ..ledger };
    assert forall|i: int, j: int| 0 <= i < j < after.events.len() implies after.events[i].id
        != after.events[j].id by {
        assert(ledger.events[i].id != ledger.events[j].id);
    }
    assert forall|i: int| 0 <= i < after.events.len() implies (#[trigger] after.events[i]).wf()
        && after.event_metas[i].id == after.events[i].id by {
        assert(ledger.events[i].wf());
    }
    assert forall|key: Pubkey| #[trigger]
        recorded_locked(after.users, key) == locked_by_votes(after.participations, key)
            + locked_by_events(after.events, key) by {
        lemma_total_update(ledger.events, e, event, event_weight(key));
        assert(recorded_locked(ledger.users, key) == locked_by_votes(ledger.participations, key)
            + locked_by_events(ledger.events, key));
    }
    assert forall|id: u128| #[trigger]
        deposited_on(after.participations, id) == recorded_pot(after.events, id) by {
        lemma_total_update(ledger.events, e, event, pot_weight(id));
        assert(deposited_on(ledger.participations, id) == recorded_pot(ledger.events, id));
    }
}

/// Descriptive data that keeps its identifier keeps the store well-formed.
pub proof fn lemma_update_event_meta(ledger: LedgerView, e: int, meta: EventMeta)
    requires
        ledger.wf(),
        0 <= e < ledger.events.len(),
        meta.id == ledger.event_metas[e].id,
    ensures
        (LedgerView { event_metas: ledger.event_metas.update(e, meta), ..ledger }).wf(),
{
    let after = LedgerView { event_metas: ledger.event_metas.update(e, meta), ..ledger };
    assert forall|i: int| 0 <= i < after.events.len() implies (#[trigger] after.events[i]).wf()
        && after.event_metas[i].id == after.events[i].id by {
        assert(ledger.events[i].wf());
    }
}

/// A new option with a new key and an empty vault keeps the store
/// well-formed.
pub proof fn lemma_push_option(ledger: LedgerView, option: EventOption)
    requires
        ledger.wf(),
        ledger.option_index(option.event_id, option.index) is None,
        option.vault_balance == 0,
    ensures
        (LedgerView { options: ledger.options.push(option), ..ledger }).wf(),
{
    let after = LedgerView { options: ledger.options.push(option), ..ledger };
    assert forall|i: int, j: int| 0 <= i < j < after.options.len() implies !(
    after.options[i].event_id == after.options[j].event_id && after.options[i].index
        == after.options[j].index) by {
        if j == ledger.options.len() {
            assert(!ledger.is_option(i, option.event_id, option.index));
        } else {
            assert(!(ledger.options[i].event_id == ledger.options[j].event_id
                && ledger.options[i].index == ledger.options[j].index));
        }
    }
    assert forall|event_id: u128, index: u8| #[trigger]
        deposited_behind(after.participations, event_id, index) == recorded_vault(
            after.options,
            event_id,
            index,
        ) by {
        lemma_total_push(ledger.options, option, vault_weight(event_id, index));
        assert(deposited_behind(ledger.participations, event_id, index) == recorded_vault(
            ledger.options,
            event_id,
            index,
        ));
    }
}

/// An option that keeps its key and its vault balance keeps the store
/// well-formed.
pub proof fn lemma_update_option(ledger: LedgerView, o: int, option: EventOption)
    requires
        ledger.wf(),
        0 <= o < ledger.options.len(),
        option.event_id == ledger.options[o].event_id,
        option.index == ledger.options[o].index,
        option.vault_balance == ledger.options[o].vault_balance,
    ensures
        (LedgerView { options: ledger.options.update(o, option), ..ledger }).wf(),
{
    let after = LedgerView { options: ledger.options.update(o, option), ..ledger };
    assert forall|i: int, j: int| 0 <= i < j < after.options.len() implies !(
    after.options[i].event_id == after.options[j].event_id && after.options[i].index
        == after.options[j].index) by {
        assert(!(ledger.options[i].event_id == ledger.options[j].event_id
            && ledger.options[i].index == ledger.options[j].index));
    }
    assert forall|event_id: u128, index: u8| #[trigger]
        deposited_behind(after.participations, event_id, index) == recorded_vault(
            after.options,
            event_id,
            index,
        ) by {
        lemma_total_update(ledger.options, o, option, vault_weight(event_id, index));
        assert(deposited_behind(ledger.participations, event_id, index) == recorded_vault(
            ledger.options,
            event_id,
            index,
        ));
    }
}

// --------------------- The store stays well-formed --------------------- //

/// The creation of an event keeps the store well-formed.
pub proof fn lemma_create_event_wf(
    ledger: LedgerView,
    sender: Pubkey,
    event_id: u128,
    args: CreateEventArgs,
)
    requires
        ledger.wf(),
    ensures
        ledger.after_create_event(sender, event_id, args).wf(),
{
    if ledger.create_event_result(event_id, args) is Ok {
        lemma_push_event(
            ledger,
            new_event(sender, event_id, args),
            new_event_meta(event_id, args),
        );
    }
}

/// A change to an event that keeps its identifier, its creator, its stake,
/// its pot and valid dates keeps the store well-formed.
pub proof fn lemma_with_event_wf(
    ledger: LedgerView,
    res: Result<(), ProgramError>,
    event_id: u128,
    event: Event,
)
    requires
        ledger.wf(),
        res is Ok ==> (ledger.event(event_id) matches Some(old_event) && event.id == old_event.id
            && event.authority == old_event.authority && event.stake == old_event.stake
            && event.total_amount == old_event.total_amount && event.wf()),
    ensures
        ledger.with_event(res, event_id, event).wf(),
{
    if res is Ok {
        let e = ledger.event_index(event_id)->0;
        assert(ledger.is_event(e, event_id));
        lemma_update_event(ledger, e, event);
    }
}

/// A change to the descriptive data of an event keeps the store well-formed.
pub proof fn lemma_with_event_meta_wf(
    ledger: LedgerView,
    res: Result<(), ProgramError>,
    event_id: u128,
    meta: EventMeta,
)
    requires
        ledger.wf(),
        res is Ok ==> (ledger.event_meta(event_id) matches Some(old_meta) && meta.id
            == old_meta.id),
    ensures
        ledger.with_event_meta(res, event_id, meta).wf(),
{
    if res is Ok {
        let e = ledger.event_index(event_id)->0;
        assert(ledger.is_event(e, event_id));
        lemma_update_event_meta(ledger, e, meta);
    }
}

/// The creation of an option keeps the store well-formed.
pub proof fn lemma_create_event_option_wf(
    ledger: LedgerView,
    sender: Pubkey,
    event_id: u128,
    index: u8,
    description: [u8; 256],
    now: i64,
)
    requires
        ledger.wf(),
    ensures
        ledger.after_create_event_option(sender, event_id, index, description, now).wf(),
{
    if ledger.create_event_option_result(sender, event_id, index, now) is Ok {
        let e = ledger.event_index(event_id)->0;
        assert(ledger.is_event(e, event_id));
        let event = Event {
            option_count: (ledger.events[e].option_count + 1) as u8,
            ..ledger.events[e]
        };
        assert(ledger.events[e].wf());
        lemma_update_event(ledger, e, event);
        let middle = LedgerView { events: ledger.events.update(e, event), ..ledger };
        assert(middle.option_index(event_id, index) is None) by {
            if middle.option_index(event_id, index) is Some {
                let o = middle.option_index(event_id, index)->0;
                assert(ledger.is_option(o, event_id, index));
            }
        }
        lemma_push_option(middle, new_option(index, event_id, description));
    }
}

/// A change to an option keeps the store well-formed.
pub proof fn lemma_update_event_option_wf(
    ledger: LedgerView,
    sender: Pubkey,
    event_id: u128,
    index: u8,
    description: [u8; 256],
    now: i64,
)
    requires
        ledger.wf(),
    ensures
        ledger.after_update_event_option(sender, event_id, index, description, now).wf(),
{
    if ledger.update_event_option_result(sender, event_id, index, now) is Ok {
        let o = ledger.option_index(event_id, index)->0;
        assert(ledger.is_option(o, event_id, index));
        lemma_update_option(ledger, o, EventOption { description, ..ledger.options[o] });
    }
}

} // verus!
