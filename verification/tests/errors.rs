use predictory::error::{ProgramError, ERROR_CODE_OFFSET};

fn all_errors() -> Vec<ProgramError> {
    vec![
        ProgramError::AuthorityMismatch,
        ProgramError::InvalidProgramData,
        ProgramError::InvalidProgramAccount,
        ProgramError::IllegalOwner,
        ProgramError::EventAlreadyStarted,
        ProgramError::EventIsNotOver,
        ProgramError::LowEventVolume,
        ProgramError::InvalidUUID,
        ProgramError::InvalidEndDate,
        ProgramError::InvalidIndex,
        ProgramError::TooManyOptions,
        ProgramError::InactiveEvent,
        ProgramError::ActiveEvent,
        ProgramError::CreatorParticipation,
        ProgramError::EarlyStakeWithdraw,
        ProgramError::EarlyClaim,
        ProgramError::AppellationDeadlinePassed,
        ProgramError::ParticipationDeadlinePassed,
        ProgramError::CanceledEvent,
        ProgramError::AlreadyClaimed,
        ProgramError::AlreadyAppealed,
        ProgramError::LosingOption,
        ProgramError::EventIsNotCancelled,
        ProgramError::AllStakeLocked,
        ProgramError::StakeTooLow,
        ProgramError::NotEnoughTrust,
        ProgramError::InsufficientFunds,
        ProgramError::CompletedEvent,
        ProgramError::ValueOverflow,
        ProgramError::AccountAlreadyInUse,
        ProgramError::AccountNotInitialized,
    ]
}

#[test]
fn codes_count_from_the_offset_in_order() {
    assert_eq!(ERROR_CODE_OFFSET, 6000);
    let errors = all_errors();
    for (i, e) in errors.iter().enumerate() {
        assert_eq!(e.code(), 6000 + i as u32);
    }
    assert_eq!(ProgramError::AuthorityMismatch.code(), 6000);
    assert_eq!(ProgramError::AlreadyClaimed.code(), 6019);
    assert_eq!(ProgramError::InsufficientFunds.code(), 6026);
}

#[test]
fn every_error_has_a_message_of_its_own() {
    let errors = all_errors();
    for a in errors.iter() {
        assert!(!a.message().is_empty());
        for b in errors.iter() {
            if a != b {
                assert_ne!(a.message(), b.message());
            }
        }
    }
    assert_eq!(ProgramError::AuthorityMismatch.message(), "Authority mismatched");
    assert_eq!(ProgramError::InvalidUUID.message(), "Invalid UUID version");
    assert_eq!(ProgramError::AllStakeLocked.message(), "All user stake is locked");
    assert_eq!(ProgramError::AlreadyClaimed.message(), "Already claimed");
}
