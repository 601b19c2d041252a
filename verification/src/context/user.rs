//! Registration, deposits and withdrawals.

use vstd::prelude::*;
use crate::context::constants::INITIAL_LVL;
use crate::error::ProgramError;
use crate::pubkey::Pubkey;
use crate::state::user::User;

verus! {

/// The record that a registration fills. Whatever it held before is
/// overwritten.
#[derive(Clone, Copy, Debug, PartialEq, Eq)]
pub struct CreateUser {
    /// The wallet that registers.
    pub sender: Pubkey,
    pub user: User,
}

/// The record of the user `payer` who has just registered as `name`: without
/// collateral, and with the initial trust level.
pub open spec fn new_user(payer: Pubkey, name: [u8; 32]) -> User {
    User {
        version: User::VERSION,
        payer,
        stake: 0,
        locked_stake: 0,
        trust_lvl: INITIAL_LVL,
        name,
    }
}

impl CreateUser {
    /// The records after the registration as `name`.
    pub open spec fn created(self, name: [u8; 32]) -> CreateUser {
        CreateUser { user: new_user(self.sender, name), ..self }
    }

    /// Registers `sender` as `name`: without collateral, and with the
    /// initial trust level.
    pub fn create_user(&mut self, name: [u8; 32]) -> (res: Result<(), ProgramError>)
        ensures
            res is Ok,
            *final(self) == old(self).created(name),
    {
        self.user = User {
            version: User::VERSION,
            payer: self.sender,
            stake: 0,
            locked_stake: 0,
            trust_lvl: INITIAL_LVL,
            name,
        };
        Ok(())
    }
}

/// The record that a deposit reads and writes.
#[derive(Clone, Copy, Debug, PartialEq, Eq)]
pub struct TransferStake {
    /// The wallet that deposits.
    pub sender: Pubkey,
    pub user: User,
}

impl TransferStake {
    /// Why a deposit of `stake` is refused, if it is.
    pub open spec fn refusal(self, stake: u64) -> Option<ProgramError> {
        if self.user.payer != self.sender {
            Some(ProgramError::AuthorityMismatch)
        } else if self.user.stake + stake > u64::MAX {
            Some(ProgramError::ValueOverflow)
        } else {
            None
        }
    }

    /// Adds `stake` to the free stake of `sender`.
    pub fn transfer_stake(&mut self, stake: u64) -> (res: Result<(), ProgramError>)
        ensures
            res == (match old(self).refusal(stake) {
                Some(e) => Err(e),
                None => Ok(()),
            }),
            *final(self) == if res is Ok {
                TransferStake {
                    user: User { stake: (old(self).user.stake + stake) as u64, ..old(self).user },
                    ..*old(self)
                }
            } else {
                *old(self)
            },
    {
        if !(self.user.payer == self.sender) {
            return Err(ProgramError::AuthorityMismatch);
        }
        match self.user.stake.checked_add(stake) {
            Some(sum) => {
                self.user.stake = sum;
                Ok(())
            },
            None => Err(ProgramError::ValueOverflow),
        }
    }
}

/// The record that a withdrawal reads and writes.
#[derive(Clone, Copy, Debug, PartialEq, Eq)]
pub struct WithdrawStake {
    /// The wallet that withdraws.
    pub sender: Pubkey,
    pub user: User,
}

impl WithdrawStake {
    /// Why the withdrawal is refused, if it is.
    pub open spec fn refusal(self) -> Option<ProgramError> {
        if self.user.payer != self.sender {
            Some(ProgramError::AuthorityMismatch)
        } else if self.user.stake < self.user.locked_stake {
            Some(ProgramError::AllStakeLocked)
        } else {
            None
        }
    }

    /// What an accepted withdrawal hands out: the stake beyond the locked
    /// stake.
    pub open spec fn withdrawable(self) -> u64 {
        (self.user.stake - self.user.locked_stake) as u64
    }

    /// The result of asking for the withdrawal: the amount withdrawn, or why
    /// not.
    pub open spec fn withdraw_result(self) -> Result<u64, ProgramError> {
        match self.refusal() {
            Some(e) => Err(e),
            None => Ok(self.withdrawable()),
        }
    }

    /// The record after the withdrawal was asked for.
    pub open spec fn after_withdraw(self) -> WithdrawStake {
        if self.refusal() is None {
            WithdrawStake { user: User { stake: self.user.locked_stake, ..self.user }, ..self }
        } else {
            self
        }
    }

    /// Withdraws the stake of `sender` beyond the locked stake, and returns
    /// the amount to hand out. Refused while the locked stake exceeds the
    /// stake.
    pub fn withdraw(&mut self) -> (res: Result<u64, ProgramError>)
        ensures
            res == old(self).withdraw_result(),
            *final(self) == old(self).after_withdraw(),
    {
        if !(self.user.payer == self.sender) {
            return Err(ProgramError::AuthorityMismatch);
        }
        if self.user.stake < self.user.locked_stake {
            return Err(ProgramError::AllStakeLocked);
        }
        let amount: u64 = self.user.stake - self.user.locked_stake;
        self.user.stake = self.user.locked_stake;
        Ok(amount)
    }
}

} // verus!
