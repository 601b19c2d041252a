//! The options of an event: added one by one before the event starts.

use vstd::prelude::*;
use crate::context::constants::MAX_OPTION_COUNT;
use crate::context::event::{change_refusal, check_change};
use crate::error::ProgramError;
use crate::pubkey::Pubkey;
use crate::state::event::Event;
use crate::state::option::EventOption;

verus! {

/// The records that the creation of an option reads and writes. `option` is
/// the record that is filled: whatever it held before is overwritten.
#[derive(Clone, Copy, Debug, PartialEq, Eq)]
pub struct CreateEventOption {
    /// Who asks for the option.
    pub authority: Pubkey,
    pub option: EventOption,
    pub event: Event,
}

/// The option `index` of the event `event_id` as it is created: without
/// votes.
pub open spec fn new_option(index: u8, event_id: u128, description: [u8; 256]) -> EventOption {
    EventOption {
        version: EventOption::VERSION,
        index,
        event_id,
        description,
        votes: 0,
        vault_balance: 0,
    }
}

/// Why `authority` cannot add the option `index` to `event` at the time
/// `now`, if so.
pub open spec fn creation_refusal(authority: Pubkey, event: Event, index: u8, now: i64) -> Option<
    ProgramError,
> {
    if change_refusal(authority, event, now) is Some {
        change_refusal(authority, event, now)
    } else if index != event.option_count {
        Some(ProgramError::InvalidIndex)
    } else if event.option_count >= MAX_OPTION_COUNT {
        Some(ProgramError::TooManyOptions)
    } else {
        None
    }
}

impl CreateEventOption {
    /// Why the option `index` cannot be added at the time `now`, if so.
    pub open spec fn refusal(self, index: u8, now: i64) -> Option<ProgramError> {
        creation_refusal(self.authority, self.event, index, now)
    }

    /// The records after the option `index` was added.
    pub open spec fn created(
        self,
        index: u8,
        event_id: u128,
        description: [u8; 256],
    ) -> CreateEventOption {
        CreateEventOption {
            option: new_option(index, event_id, description),
            event: Event { option_count: (self.event.option_count + 1) as u8, ..self.event },
            ..self
        }
    }

    /// Adds the option `index` to an event that has not started. Options are
    /// added in the order of their indices, the first being 0, up to
    /// [`MAX_OPTION_COUNT`] of them.
    pub fn create_event_option(
        &mut self,
        index: u8,
        event_id: u128,
        description: [u8; 256],
        now: i64,
    ) -> (res: Result<(), ProgramError>)
        ensures
            res == (match old(self).refusal(index, now) {
                Some(e) => Err(e),
                None => Ok(()),
            }),
            *final(self) == if res is Ok {
                old(self).created(index, event_id, description)
            } else {
                *old(self)
            },
            res is Ok ==> final(self).event.option_count <= MAX_OPTION_COUNT,
    {
        match check_change(&self.authority, &self.event, now) {
            Err(e) => {
                return Err(e);
            },
            Ok(()) => {},
        }
        if index != self.event.option_count {
            return Err(ProgramError::InvalidIndex);
        }
        if self.event.option_count >= MAX_OPTION_COUNT {
            return Err(ProgramError::TooManyOptions);
        }
        self.option = EventOption {
            version: EventOption::VERSION,
            index,
            event_id,
            description,
            votes: 0,
            vault_balance: 0,
        };
        self.event.option_count = self.event.option_count + 1;
        Ok(())
    }
}

/// The records that a change to an option reads and writes.
#[derive(Clone, Copy, Debug, PartialEq, Eq)]
pub struct UpdateEventOption {
    /// Who asks for the change.
    pub authority: Pubkey,
    pub event: Event,
    pub option: EventOption,
}

impl UpdateEventOption {
    /// Why the option `index` cannot be changed at the time `now`, if so.
    pub open spec fn refusal(self, index: u8, now: i64) -> Option<ProgramError> {
        if change_refusal(self.authority, self.event, now) is Some {
            change_refusal(self.authority, self.event, now)
        } else if index != self.option.index {
            Some(ProgramError::InvalidIndex)
        } else {
            None
        }
    }

    /// Replaces the description of the option `index` of an event that has
    /// not started.
    pub fn update_event_option(
        &mut self,
        index: u8,
        _event_id: u128,
        description: [u8; 256],
        now: i64,
    ) -> (res: Result<(), ProgramError>)
        ensures
            res == (match old(self).refusal(index, now) {
                Some(e) => Err(e),
                None => Ok(()),
            }),
            *final(self) == if res is Ok {
                UpdateEventOption {
                    option: EventOption { description, ..old(self).option },
                    ..*old(self)
                }
            } else {
                *old(self)
            },
    {
        match check_change(&self.authority, &self.event, now) {
            Err(e) => {
                return Err(e);
            },
            Ok(()) => {},
        }
        if index != self.option.index {
            return Err(ProgramError::InvalidIndex);
        }
        self.option.description = description;
        Ok(())
    }
}

} // verus!
