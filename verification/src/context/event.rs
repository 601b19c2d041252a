//! The life of an event: creation, changes before the start, cancellation
//! and the declaration of the outcome.

use vstd::prelude::*;
use crate::context::constants::{completion_window_end, COMPLETION_DEADLINE, UUID_VERSION};
use crate::context::utils::{uuid_version_num, uuid_version_of};
use crate::error::ProgramError;
use crate::pubkey::Pubkey;
use crate::state::event::{dates_valid, Event, EventMeta};

verus! {

/// Whether the dates are valid: see [`dates_valid`].
pub fn check_dates(start_date: i64, end_date: i64, deadline: Option<i64>) -> (valid: bool)
    ensures
        valid == dates_valid(start_date, end_date, deadline),
{
    if start_date >= end_date {
        return false;
    }
    match deadline {
        Some(d) => start_date <= d && d <= end_date,
        None => true,
    }
}

// ------------------------------ Creation ------------------------------- //

/// What the creator of an event chooses.
#[derive(Clone, Copy, Debug, PartialEq, Eq)]
pub struct CreateEventArgs {
    pub name: [u8; 32],
    pub description: [u8; 256],
    pub start_date: i64,
    pub end_date: i64,
    pub participation_deadline: Option<i64>,
}

/// The records that the creation of an event fills. Whatever they held
/// before is overwritten.
#[derive(Clone, Copy, Debug, PartialEq, Eq)]
pub struct CreateEvent {
    /// The creator.
    pub authority: Pubkey,
    pub event: Event,
    pub event_meta: EventMeta,
}

/// The event `event_id` as `authority` creates it with `args`: without
/// options, without votes and without stake, neither canceled nor completed.
pub open spec fn new_event(authority: Pubkey, event_id: u128, args: CreateEventArgs) -> Event {
    Event {
        version: Event::VERSION,
        id: event_id,
        authority,
        stake: 0,
        start_date: args.start_date,
        end_date: args.end_date,
        participation_deadline: args.participation_deadline,
        option_count: 0,
        canceled: false,
        total_amount: 0,
        total_trust: 0,
        participation_count: 0,
        result: None,
    }
}

/// The descriptive data of the event `event_id` as it is created with `args`.
pub open spec fn new_event_meta(event_id: u128, args: CreateEventArgs) -> EventMeta {
    EventMeta {
        version: EventMeta::VERSION,
        id: event_id,
        is_private: false,
        name: args.name,
        description: args.description,
    }
}

impl CreateEvent {
    /// Why an event `event_id` cannot be created with `args`, if it cannot.
    pub open spec fn refusal(event_id: u128, args: CreateEventArgs) -> Option<ProgramError> {
        if uuid_version_of(event_id) != UUID_VERSION {
            Some(ProgramError::InvalidUUID)
        } else if !dates_valid(args.start_date, args.end_date, args.participation_deadline) {
            Some(ProgramError::InvalidEndDate)
        } else {
            None
        }
    }

    /// The records after the event `event_id` was created.
    pub open spec fn created(self, event_id: u128, args: CreateEventArgs) -> CreateEvent {
        CreateEvent {
            event: new_event(self.authority, event_id, args),
            event_meta: new_event_meta(event_id, args),
            ..self
        }
    }

    /// The records after the creation of `event_id` was asked for.
    pub open spec fn after_create(self, event_id: u128, args: CreateEventArgs) -> CreateEvent {
        if Self::refusal(event_id, args) is None {
            self.created(event_id, args)
        } else {
            self
        }
    }

    /// Checks the identifier and the dates of a new event: the identifier
    /// must be a version 4 UUID, the start must lie strictly before the end,
    /// and a participation deadline between them, both included.
    pub fn validate(&self, event_id: u128, args: &CreateEventArgs) -> (res: Result<
        (),
        ProgramError,
    >)
        ensures
            res == (match Self::refusal(event_id, *args) {
                Some(e) => Err(e),
                None => Ok(()),
            }),
    {
        if uuid_version_num(event_id) != UUID_VERSION {
            return Err(ProgramError::InvalidUUID);
        }
        if !check_dates(args.start_date, args.end_date, args.participation_deadline) {
            return Err(ProgramError::InvalidEndDate);
        }
        Ok(())
    }

    /// Creates the event `event_id` in the name of `authority`: without
    /// options, without votes, neither canceled nor completed.
    pub fn create_event(&mut self, event_id: u128, args: CreateEventArgs) -> (res: Result<
        (),
        ProgramError,
    >)
        ensures
            res == (match Self::refusal(event_id, args) {
                Some(e) => Err(e),
                None => Ok(()),
            }),
            *final(self) == old(self).after_create(event_id, args),
            res is Ok ==> final(self).event.wf(),
    {
        match self.validate(event_id, &args) {
            Err(e) => {
                return Err(e);
            },
            Ok(()) => {},
        }
        self.event = Event {
            version: Event::VERSION,
            id: event_id,
            authority: self.authority,
            stake: 0,
            start_date: args.start_date,
            end_date: args.end_date,
            participation_deadline: args.participation_deadline,
            option_count: 0,
            canceled: false,
            total_amount: 0,
            total_trust: 0,
            participation_count: 0,
            result: None,
        };
        self.event_meta = EventMeta {
            version: EventMeta::VERSION,
            id: event_id,
            is_private: false,
            name: args.name,
            description: args.description,
        };
        Ok(())
    }
}

// ------------------------ Changes before the start --------------------- //

/// The records that a change to an event reads and writes.
#[derive(Clone, Copy, Debug, PartialEq, Eq)]
pub struct UpdateEvent {
    /// Who asks for the change.
    pub authority: Pubkey,
    pub event: Event,
    pub event_meta: EventMeta,
}

/// Why `authority` may not change `event` at the time `now`, if so. Only the
/// creator may, and only before the event starts.
pub open spec fn change_refusal(authority: Pubkey, event: Event, now: i64) -> Option<ProgramError> {
    if event.authority != authority {
        Some(ProgramError::AuthorityMismatch)
    } else if event.start_date <= now {
        Some(ProgramError::EventAlreadyStarted)
    } else {
        None
    }
}

/// Whether `authority` may change `event` at the time `now`.
pub fn check_change(authority: &Pubkey, event: &Event, now: i64) -> (res: Result<(), ProgramError>)
    ensures
        res == (match change_refusal(*authority, *event, now) {
            Some(e) => Err(e),
            None => Ok(()),
        }),
{
    if !(event.authority == *authority) {
        return Err(ProgramError::AuthorityMismatch);
    }
    if event.start_date <= now {
        return Err(ProgramError::EventAlreadyStarted);
    }
    Ok(())
}

impl UpdateEvent {
    /// Why the end date cannot become `end_date` at the time `now`, if so.
    pub open spec fn end_date_refusal(self, end_date: i64, now: i64) -> Option<ProgramError> {
        if change_refusal(self.authority, self.event, now) is Some {
            change_refusal(self.authority, self.event, now)
        } else if !dates_valid(self.event.start_date, end_date, self.event.participation_deadline) {
            Some(ProgramError::InvalidEndDate)
        } else {
            None
        }
    }

    /// Why the participation deadline cannot become `deadline` at the time
    /// `now`, if so.
    pub open spec fn deadline_refusal(self, deadline: Option<i64>, now: i64) -> Option<
        ProgramError,
    > {
        if change_refusal(self.authority, self.event, now) is Some {
            change_refusal(self.authority, self.event, now)
        } else if !dates_valid(self.event.start_date, self.event.end_date, deadline) {
            Some(ProgramError::InvalidEndDate)
        } else {
            None
        }
    }

    /// Renames the event.
    pub fn update_event_name(&mut self, _event_id: u128, name: [u8; 32], now: i64) -> (res: Result<
        (),
        ProgramError,
    >)
        ensures
            res == (match change_refusal(old(self).authority, old(self).event, now) {
                Some(e) => Err(e),
                None => Ok(()),
            }),
            *final(self) == if res is Ok {
                UpdateEvent { event_meta: EventMeta { name, ..old(self).event_meta }, ..*old(self) }
            } else {
                *old(self)
            },
    {
        match check_change(&self.authority, &self.event, now) {
            Err(e) => Err(e),
            Ok(()) => {
                self.event_meta.name = name;
                Ok(())
            },
        }
    }

    /// Replaces the description of the event.
    pub fn update_event_description(
        &mut self,
        _event_id: u128,
        description: [u8; 256],
        now: i64,
    ) -> (res: Result<(), ProgramError>)
        ensures
            res == (match change_refusal(old(self).authority, old(self).event, now) {
                Some(e) => Err(e),
                None => Ok(()),
            }),
            *final(self) == if res is Ok {
                UpdateEvent {
                    event_meta: EventMeta { description, ..old(self).event_meta },
                    ..*old(self)
                }
            } else {
                *old(self)
            },
    {
        match check_change(&self.authority, &self.event, now) {
            Err(e) => Err(e),
            Ok(()) => {
                self.event_meta.description = description;
                Ok(())
            },
        }
    }

    /// Moves the end date. The dates must stay valid: the end after the
    /// start, and not before the participation deadline.
    pub fn update_event_end_date(&mut self, _event_id: u128, end_date: i64, now: i64) -> (res:
        Result<(), ProgramError>)
        ensures
            res == (match old(self).end_date_refusal(end_date, now) {
                Some(e) => Err(e),
                None => Ok(()),
            }),
            *final(self) == if res is Ok {
                UpdateEvent { event: Event { end_date, ..old(self).event }, ..*old(self) }
            } else {
                *old(self)
            },
            res is Ok ==> final(self).event.wf(),
    {
        match check_change(&self.authority, &self.event, now) {
            Err(e) => {
                return Err(e);
            },
            Ok(()) => {},
        }
        if !check_dates(self.event.start_date, end_date, self.event.participation_deadline) {
            return Err(ProgramError::InvalidEndDate);
        }
        self.event.end_date = end_date;
        Ok(())
    }

    /// Sets or clears the participation deadline. A deadline must lie
    /// between the start and the end, both included.
    pub fn update_event_participation_deadline(
        &mut self,
        _event_id: u128,
        participation_deadline: Option<i64>,
        now: i64,
    ) -> (res: Result<(), ProgramError>)
        ensures
            res == (match old(self).deadline_refusal(participation_deadline, now) {
                Some(e) => Err(e),
                None => Ok(()),
            }),
            *final(self) == if res is Ok {
                UpdateEvent {
                    event: Event { participation_deadline, ..old(self).event },
                    ..*old(self)
                }
            } else {
                *old(self)
            },
            res is Ok ==> final(self).event.wf(),
    {
        match check_change(&self.authority, &self.event, now) {
            Err(e) => {
                return Err(e);
            },
            Ok(()) => {},
        }
        if !check_dates(self.event.start_date, self.event.end_date, participation_deadline) {
            return Err(ProgramError::InvalidEndDate);
        }
        self.event.participation_deadline = participation_deadline;
        Ok(())
    }
}

// ----------------------------- Cancellation ---------------------------- //

/// The record that a cancellation reads and writes.
#[derive(Clone, Copy, Debug, PartialEq, Eq)]
pub struct CancelEvent {
    /// Who asks for the cancellation.
    pub sender: Pubkey,
    pub event: Event,
}

impl CancelEvent {
    /// Why the event cannot be canceled at the time `now`, if so.
    pub open spec fn refusal(self, now: i64) -> Option<ProgramError> {
        if now <= self.event.end_date {
            Some(ProgramError::EventIsNotOver)
        } else if self.event.authority != self.sender && now <= completion_window_end(
            self.event.end_date,
        ) {
            Some(ProgramError::AuthorityMismatch)
        } else if self.event.canceled {
            Some(ProgramError::CanceledEvent)
        } else if self.event.result is Some {
            Some(ProgramError::CompletedEvent)
        } else {
            None
        }
    }

    /// Cancels an event that has ended and has no outcome. The creator may
    /// do so at any time after the end, anyone else once the completion
    /// deadline has passed.
    pub fn cancel_event(&mut self, _event_id: u128, now: i64) -> (res: Result<(), ProgramError>)
        ensures
            res == (match old(self).refusal(now) {
                Some(e) => Err(e),
                None => Ok(()),
            }),
            *final(self) == if res is Ok {
                CancelEvent { event: Event { canceled: true, ..old(self).event }, ..*old(self) }
            } else {
                *old(self)
            },
    {
        if now <= self.event.end_date {
            return Err(ProgramError::EventIsNotOver);
        }
        if !(self.event.authority == self.sender) && now as i128 <= self.event.end_date as i128
            + COMPLETION_DEADLINE as i128 {
            return Err(ProgramError::AuthorityMismatch);
        }
        if self.event.canceled {
            return Err(ProgramError::CanceledEvent);
        }
        if self.event.result.is_some() {
            return Err(ProgramError::CompletedEvent);
        }
        self.event.canceled = true;
        Ok(())
    }
}

// ----------------------------- Completion ------------------------------ //

/// The record that the declaration of an outcome reads and writes.
#[derive(Clone, Copy, Debug, PartialEq, Eq)]
pub struct CompleteEvent {
    /// Who declares the outcome.
    pub authority: Pubkey,
    pub event: Event,
}

impl CompleteEvent {
    /// Why the outcome `result` cannot be declared at the time `now`, if so.
    pub open spec fn refusal(self, result: u8, now: i64) -> Option<ProgramError> {
        if self.event.authority != self.authority {
            Some(ProgramError::AuthorityMismatch)
        } else if now <= self.event.end_date {
            Some(ProgramError::EventIsNotOver)
        } else if self.event.canceled {
            Some(ProgramError::CanceledEvent)
        } else if self.event.result is Some {
            Some(ProgramError::CompletedEvent)
        } else if result >= self.event.option_count {
            Some(ProgramError::InvalidIndex)
        } else {
            None
        }
    }

    /// Declares the option `result` the outcome of an event that has ended,
    /// in the name of its creator. The outcome is declared once, and names
    /// one of the event's options.
    pub fn complete_event(&mut self, _event_id: u128, result: u8, now: i64) -> (res: Result<
        (),
        ProgramError,
    >)
        ensures
            res == (match old(self).refusal(result, now) {
                Some(e) => Err(e),
                None => Ok(()),
            }),
            *final(self) == if res is Ok {
                CompleteEvent {
                    event: Event { result: Some(result), ..old(self).event },
                    ..*old(self)
                }
            } else {
                *old(self)
            },
    {
        if !(self.event.authority == self.authority) {
            return Err(ProgramError::AuthorityMismatch);
        }
        if now <= self.event.end_date {
            return Err(ProgramError::EventIsNotOver);
        }
        if self.event.canceled {
            return Err(ProgramError::CanceledEvent);
        }
        if self.event.result.is_some() {
            return Err(ProgramError::CompletedEvent);
        }
        if result >= self.event.option_count {
            return Err(ProgramError::InvalidIndex);
        }
        self.event.result = Some(result);
        Ok(())
    }
}

} // verus!
