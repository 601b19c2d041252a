//! The configuration of the ledger, and who may change it.

use vstd::prelude::*;
use crate::error::ProgramError;
use crate::pubkey::Pubkey;
use crate::state::contract_state::State;

verus! {

/// The record that the first configuration fills. Whatever it held before is
/// overwritten.
#[derive(Clone, Copy, Debug, PartialEq, Eq)]
pub struct InitializeContractState {
    /// Who asks for the configuration.
    pub authority: Pubkey,
    pub state: State,
    /// Who may upgrade the deployed ledger, if anyone.
    pub upgrade_authority: Option<Pubkey>,
}

impl InitializeContractState {
    /// Why the configuration is refused, if it is: only who may upgrade the
    /// ledger may configure it.
    pub open spec fn refusal(self) -> Option<ProgramError> {
        if self.upgrade_authority != Some(self.authority) {
            Some(ProgramError::AuthorityMismatch)
        } else {
            None
        }
    }

    /// Sets every parameter of the configuration.
    pub fn initialize_contract_state(
        &mut self,
        authority: Pubkey,
        multiplier: u64,
        event_price: u64,
        platform_fee: u64,
        org_reward: u64,
    ) -> (res: Result<(), ProgramError>)
        ensures
            res == (match old(self).refusal() {
                Some(e) => Err(e),
                None => Ok(()),
            }),
            *final(self) == if res is Ok {
                InitializeContractState {
                    state: State {
                        version: State::VERSION,
                        authority,
                        multiplier,
                        event_price,
                        platform_fee,
                        org_reward,
                    },
                    ..*old(self)
                }
            } else {
                *old(self)
            },
    {
        match self.upgrade_authority {
            Some(key) => {
                if !(key == self.authority) {
                    return Err(ProgramError::AuthorityMismatch);
                }
            },
            None => {
                return Err(ProgramError::AuthorityMismatch);
            },
        }
        self.state = State {
            version: State::VERSION,
            authority,
            multiplier,
            event_price,
            platform_fee,
            org_reward,
        };
        Ok(())
    }
}

/// The record that a change of the configuration reads and writes.
#[derive(Clone, Copy, Debug, PartialEq, Eq)]
pub struct UpdateContractState {
    /// Who asks for the change.
    pub authority: Pubkey,
    pub state: State,
}

impl UpdateContractState {
    /// Why the change is refused, if it is: only the configured authority
    /// may change the configuration.
    pub open spec fn refusal(self) -> Option<ProgramError> {
        if self.state.authority != self.authority {
            Some(ProgramError::AuthorityMismatch)
        } else {
            None
        }
    }

    /// Whether the change is accepted.
    pub fn check(&self) -> (res: Result<(), ProgramError>)
        ensures
            res == (match self.refusal() {
                Some(e) => Err(e),
                None => Ok(()),
            }),
    {
        if self.state.authority == self.authority {
            Ok(())
        } else {
            Err(ProgramError::AuthorityMismatch)
        }
    }

    /// Hands the configuration over to `authority`.
    pub fn set_authority(&mut self, authority: Pubkey) -> (res: Result<(), ProgramError>)
        ensures
            res == (match old(self).refusal() {
                Some(e) => Err(e),
                None => Ok(()),
            }),
            *final(self) == if res is Ok {
                UpdateContractState { state: State { authority, ..old(self).state }, ..*old(self) }
            } else {
                *old(self)
            },
    {
        match self.check() {
            Err(e) => Err(e),
            Ok(()) => {
                self.state.authority = authority;
                Ok(())
            },
        }
    }

    /// Sets the trust earned per whole unit of collateral.
    pub fn set_multiplier(&mut self, multiplier: u64) -> (res: Result<(), ProgramError>)
        ensures
            res == (match old(self).refusal() {
                Some(e) => Err(e),
                None => Ok(()),
            }),
            *final(self) == if res is Ok {
                UpdateContractState { state: State { multiplier, ..old(self).state }, ..*old(self) }
            } else {
                *old(self)
            },
    {
        match self.check() {
            Err(e) => Err(e),
            Ok(()) => {
                self.state.multiplier = multiplier;
                Ok(())
            },
        }
    }

    /// Sets the price of creating an event.
    pub fn set_price(&mut self, event_price: u64) -> (res: Result<(), ProgramError>)
        ensures
            res == (match old(self).refusal() {
                Some(e) => Err(e),
                None => Ok(()),
            }),
            *final(self) == if res is Ok {
                UpdateContractState {
                    state: State { event_price, ..old(self).state },
                    ..*old(self)
                }
            } else {
                *old(self)
            },
    {
        match self.check() {
            Err(e) => Err(e),
            Ok(()) => {
                self.state.event_price = event_price;
                Ok(())
            },
        }
    }
}

} // verus!
