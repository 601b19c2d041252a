//! The errors with which an operation is refused.

use vstd::prelude::*;

verus! {

/// Why an operation was refused. A refused operation changes nothing.
#[derive(Clone, Copy, Debug, PartialEq, Eq, Structural)]
pub enum ProgramError {
    /// The caller is not the recorded owner or authority.
    AuthorityMismatch,
    /// The program data does not belong to the program. Raised by whoever
    /// admits the accounts, not by this library.
    InvalidProgramData,
    /// The program account is not that of the ledger. Raised by whoever
    /// admits the accounts, not by this library.
    InvalidProgramAccount,
    /// Reserved: the code is kept for the sake of the codes that follow.
    IllegalOwner,
    /// The event may only be changed before it starts.
    EventAlreadyStarted,
    /// The event has not ended, or no outcome has been declared yet.
    EventIsNotOver,
    /// Reserved: the code is kept for the sake of the codes that follow.
    LowEventVolume,
    /// The event identifier is not a version 4 UUID.
    InvalidUUID,
    /// The dates do not satisfy start < end, or the participation deadline
    /// lies outside of them.
    InvalidEndDate,
    /// Options are appended one by one, an outcome names an existing option,
    /// and the option at hand is the one that was asked for.
    InvalidIndex,
    /// The event has as many options as it may have.
    TooManyOptions,
    /// Votes are accepted from the start date to the end date, both included.
    InactiveEvent,
    /// The event has not ended yet.
    ActiveEvent,
    /// Reserved: the code is kept for the sake of the codes that follow.
    CreatorParticipation,
    /// Reserved: the code is kept for the sake of the codes that follow.
    EarlyStakeWithdraw,
    /// Rewards are paid only after the dispute window has elapsed.
    EarlyClaim,
    /// The dispute window has elapsed.
    AppellationDeadlinePassed,
    /// Votes are accepted strictly before the participation deadline only.
    ParticipationDeadlinePassed,
    /// The event is canceled.
    CanceledEvent,
    /// The vote has been settled or refunded already.
    AlreadyClaimed,
    /// The voter has disputed the outcome already.
    AlreadyAppealed,
    /// Reserved: the code is kept for the sake of the codes that follow.
    LosingOption,
    /// Deposits are refunded on canceled events only.
    EventIsNotCancelled,
    /// The user's locked stake exceeds the stake.
    AllStakeLocked,
    /// Reserved: the code is kept for the sake of the codes that follow.
    StakeTooLow,
    /// The user has less trust than is to be burned.
    NotEnoughTrust,
    /// The free stake does not cover the amount.
    InsufficientFunds,
    /// An outcome has already been declared.
    CompletedEvent,
    /// An amount would leave the range of its integer type, or a division
    /// by zero was asked for.
    ValueOverflow,
    /// A record with the same key exists already.
    AccountAlreadyInUse,
    /// No record has the key that was asked for.
    AccountNotInitialized,
}

/// The number from which the codes of the errors count.
pub const ERROR_CODE_OFFSET: u32 = 6000;

impl ProgramError {
    /// The position of the error among all errors.
    pub open spec fn ordinal(self) -> nat {
        match self {
            ProgramError::AuthorityMismatch => 0,
            ProgramError::InvalidProgramData => 1,
            ProgramError::InvalidProgramAccount => 2,
            ProgramError::IllegalOwner => 3,
            ProgramError::EventAlreadyStarted => 4,
            ProgramError::EventIsNotOver => 5,
            ProgramError::LowEventVolume => 6,
            ProgramError::InvalidUUID => 7,
            ProgramError::InvalidEndDate => 8,
            ProgramError::InvalidIndex => 9,
            ProgramError::TooManyOptions => 10,
            ProgramError::InactiveEvent => 11,
            ProgramError::ActiveEvent => 12,
            ProgramError::CreatorParticipation => 13,
            ProgramError::EarlyStakeWithdraw => 14,
            ProgramError::EarlyClaim => 15,
            ProgramError::AppellationDeadlinePassed => 16,
            ProgramError::ParticipationDeadlinePassed => 17,
            ProgramError::CanceledEvent => 18,
            ProgramError::AlreadyClaimed => 19,
            ProgramError::AlreadyAppealed => 20,
            ProgramError::LosingOption => 21,
            ProgramError::EventIsNotCancelled => 22,
            ProgramError::AllStakeLocked => 23,
            ProgramError::StakeTooLow => 24,
            ProgramError::NotEnoughTrust => 25,
            ProgramError::InsufficientFunds => 26,
            ProgramError::CompletedEvent => 27,
            ProgramError::ValueOverflow => 28,
            ProgramError::AccountAlreadyInUse => 29,
            ProgramError::AccountNotInitialized => 30,
        }
    }

    /// The message of the error.
    pub open spec fn message_text(self) -> Seq<char> {
        match self {
            ProgramError::AuthorityMismatch => "Authority mismatched"@,
            ProgramError::InvalidProgramData => "Invalid program data account"@,
            ProgramError::InvalidProgramAccount => "Invalid program account"@,
            ProgramError::IllegalOwner => "Account has illegal owner"@,
            ProgramError::EventAlreadyStarted => "Event has already started"@,
            ProgramError::EventIsNotOver => "Event is not over"@,
            ProgramError::LowEventVolume => "Low event volume"@,
            ProgramError::InvalidUUID => "Invalid UUID version"@,
            ProgramError::InvalidEndDate => "Invalid sale end date"@,
            ProgramError::InvalidIndex => "Invalid index - must be sequential"@,
            ProgramError::TooManyOptions => "Event has too many options"@,
            ProgramError::InactiveEvent => "Event is inactive"@,
            ProgramError::ActiveEvent => "Event is still active"@,
            ProgramError::CreatorParticipation => "Event creator cannot be a participant"@,
            ProgramError::EarlyStakeWithdraw => "Stake can be withdrawn only after the event is over and appellation time has passed"@,
            ProgramError::EarlyClaim => "Reward can be withdrawn only after the event is over and completion time + appellation time has passed"@,
            ProgramError::AppellationDeadlinePassed => "Appellation deadline passed"@,
            ProgramError::ParticipationDeadlinePassed => "Participation deadline passed"@,
            ProgramError::CanceledEvent => "Event is canceled"@,
            ProgramError::AlreadyClaimed => "Already claimed"@,
            ProgramError::AlreadyAppealed => "Already appealed"@,
            ProgramError::LosingOption => "This option has lost"@,
            ProgramError::EventIsNotCancelled => "Event is not cancelled"@,
            ProgramError::AllStakeLocked => "All user stake is locked"@,
            ProgramError::StakeTooLow => "Low stake to create event"@,
            ProgramError::NotEnoughTrust => "Not enough trust to burn"@,
            ProgramError::InsufficientFunds => "Not funds to withdraw"@,
            ProgramError::CompletedEvent => "Event is completed"@,
            ProgramError::ValueOverflow => "Value overflow"@,
            ProgramError::AccountAlreadyInUse => "Account already in use"@,
            ProgramError::AccountNotInitialized => "Account not initialized"@,
        }
    }

    /// The code under which the error is reported: the errors are numbered
    /// from [`ERROR_CODE_OFFSET`] in the order of their declaration, so that
    /// no two errors share a code.
    pub fn code(&self) -> (code: u32)
        ensures
            code == ERROR_CODE_OFFSET + self.ordinal(),
    {
        let ordinal: u32 = match self {
            ProgramError::AuthorityMismatch => 0,
            ProgramError::InvalidProgramData => 1,
            ProgramError::InvalidProgramAccount => 2,
            ProgramError::IllegalOwner => 3,
            ProgramError::EventAlreadyStarted => 4,
            ProgramError::EventIsNotOver => 5,
            ProgramError::LowEventVolume => 6,
            ProgramError::InvalidUUID => 7,
            ProgramError::InvalidEndDate => 8,
            ProgramError::InvalidIndex => 9,
            ProgramError::TooManyOptions => 10,
            ProgramError::InactiveEvent => 11,
            ProgramError::ActiveEvent => 12,
            ProgramError::CreatorParticipation => 13,
            ProgramError::EarlyStakeWithdraw => 14,
            ProgramError::EarlyClaim => 15,
            ProgramError::AppellationDeadlinePassed => 16,
            ProgramError::ParticipationDeadlinePassed => 17,
            ProgramError::CanceledEvent => 18,
            ProgramError::AlreadyClaimed => 19,
            ProgramError::AlreadyAppealed => 20,
            ProgramError::LosingOption => 21,
            ProgramError::EventIsNotCancelled => 22,
            ProgramError::AllStakeLocked => 23,
            ProgramError::StakeTooLow => 24,
            ProgramError::NotEnoughTrust => 25,
            ProgramError::InsufficientFunds => 26,
            ProgramError::CompletedEvent => 27,
            ProgramError::ValueOverflow => 28,
            ProgramError::AccountAlreadyInUse => 29,
            ProgramError::AccountNotInitialized => 30,
        };
        ERROR_CODE_OFFSET + ordinal
    }

    /// The message with which the error is reported.
    pub fn message(&self) -> (text: &'static str)
        ensures
            text@ == self.message_text(),
    {
        match self {
            ProgramError::AuthorityMismatch => "Authority mismatched",
            ProgramError::InvalidProgramData => "Invalid program data account",
            ProgramError::InvalidProgramAccount => "Invalid program account",
            ProgramError::IllegalOwner => "Account has illegal owner",
            ProgramError::EventAlreadyStarted => "Event has already started",
            ProgramError::EventIsNotOver => "Event is not over",
            ProgramError::LowEventVolume => "Low event volume",
            ProgramError::InvalidUUID => "Invalid UUID version",
            ProgramError::InvalidEndDate => "Invalid sale end date",
            ProgramError::InvalidIndex => "Invalid index - must be sequential",
            ProgramError::TooManyOptions => "Event has too many options",
            ProgramError::InactiveEvent => "Event is inactive",
            ProgramError::ActiveEvent => "Event is still active",
            ProgramError::CreatorParticipation => "Event creator cannot be a participant",
            ProgramError::EarlyStakeWithdraw => "Stake can be withdrawn only after the event is over and appellation time has passed",
            ProgramError::EarlyClaim => "Reward can be withdrawn only after the event is over and completion time + appellation time has passed",
            ProgramError::AppellationDeadlinePassed => "Appellation deadline passed",
            ProgramError::ParticipationDeadlinePassed => "Participation deadline passed",
            ProgramError::CanceledEvent => "Event is canceled",
            ProgramError::AlreadyClaimed => "Already claimed",
            ProgramError::AlreadyAppealed => "Already appealed",
            ProgramError::LosingOption => "This option has lost",
            ProgramError::EventIsNotCancelled => "Event is not cancelled",
            ProgramError::AllStakeLocked => "All user stake is locked",
            ProgramError::StakeTooLow => "Low stake to create event",
            ProgramError::NotEnoughTrust => "Not enough trust to burn",
            ProgramError::InsufficientFunds => "Not funds to withdraw",
            ProgramError::CompletedEvent => "Event is completed",
            ProgramError::ValueOverflow => "Value overflow",
            ProgramError::AccountAlreadyInUse => "Account already in use",
            ProgramError::AccountNotInitialized => "Account not initialized",
        }
    }
}

/// No two errors are reported under the same code.
pub proof fn lemma_codes_differ(a: ProgramError, b: ProgramError)
    requires
        a != b,
    ensures
        a.ordinal() != b.ordinal(),
{
}

} // verus!
