use predictory::context::constants::{COMPLETION_DEADLINE, MAX_OPTION_COUNT, UUID_VERSION};
use predictory::context::event::{
    check_change, check_dates, CancelEvent, CompleteEvent, CreateEvent, CreateEventArgs,
    UpdateEvent,
};
use predictory::context::option::{CreateEventOption, UpdateEventOption};
use predictory::error::ProgramError;
use predictory::pubkey::Pubkey;
use predictory::state::event::{Event, EventMeta};
use predictory::state::option::EventOption;

const V4: u128 = 0xa1a2a3a4_b1b2_41c2_91d2_d3d4d5d6d7d8;

fn creator_key() -> Pubkey {
    Pubkey::new_from_array([7u8; 32])
}

fn other_key() -> Pubkey {
    Pubkey::new_from_array([8u8; 32])
}

fn blank_event() -> Event {
    Event {
        version: 0,
        id: 0,
        authority: Pubkey::new_from_array([0u8; 32]),
        stake: 0,
        start_date: 0,
        end_date: 0,
        participation_deadline: None,
        option_count: 0,
        canceled: false,
        total_amount: 0,
        total_trust: 0,
        participation_count: 0,
        result: None,
    }
}

fn blank_meta() -> EventMeta {
    EventMeta { version: 0, id: 0, is_private: false, name: [0u8; 32], description: [0u8; 256] }
}

fn blank_option() -> EventOption {
    EventOption {
        version: 0,
        index: 0,
        event_id: 0,
        description: [0u8; 256],
        votes: 0,
        vault_balance: 0,
    }
}

fn args_with(start_date: i64, end_date: i64, deadline: Option<i64>) -> CreateEventArgs {
    CreateEventArgs {
        name: [1u8; 32],
        description: [2u8; 256],
        start_date,
        end_date,
        participation_deadline: deadline,
    }
}

fn fresh_event() -> Event {
    Event {
        version: 1,
        id: V4,
        authority: creator_key(),
        start_date: 100,
        end_date: 200,
        ..blank_event()
    }
}

fn create_ctx() -> CreateEvent {
    CreateEvent { authority: creator_key(), event: blank_event(), event_meta: blank_meta() }
}

// ------------------------------ Creation ------------------------------- //

#[test]
fn create_event_fills_both_records() {
    let mut ctx = create_ctx();
    assert_eq!(ctx.create_event(V4, args_with(100, 200, Some(150))), Ok(()));
    assert_eq!(ctx.event, Event { participation_deadline: Some(150), ..fresh_event() });
    assert_eq!(
        ctx.event_meta,
        EventMeta {
            version: 1,
            id: V4,
            is_private: false,
            name: [1u8; 32],
            description: [2u8; 256]
        }
    );
}

#[test]
fn create_event_rejects_a_version_1_uuid() {
    let mut ctx = create_ctx();
    let before = ctx;
    let v1: u128 = 0xa1a2a3a4_b1b2_11c2_91d2_d3d4d5d6d7d8;
    assert_eq!(ctx.create_event(v1, args_with(100, 200, None)), Err(ProgramError::InvalidUUID));
    assert_eq!(ctx, before);
    assert_eq!(ctx.create_event(V4, args_with(100, 200, None)), Ok(()));
    assert_eq!(ctx.event.id, V4);
}

#[test]
fn version_is_read_from_the_seventh_byte_only() {
    assert_eq!(UUID_VERSION, 4);
    let ctx = create_ctx();
    let args = args_with(100, 200, None);
    // The value of a UUID is not its version: 4 passes for no version 4.
    assert_eq!(ctx.validate(4, &args), Err(ProgramError::InvalidUUID));
    assert_eq!(ctx.validate(0, &args), Err(ProgramError::InvalidUUID));
    assert_eq!(ctx.validate(u128::MAX, &args), Err(ProgramError::InvalidUUID));
    assert_eq!(ctx.validate(4u128 << 76, &args), Ok(()));
    assert_eq!(ctx.validate(u128::MAX ^ (0xbu128 << 76), &args), Ok(()));
    for version in 0..16u128 {
        let id = (0x1234_5678_9abc_0def_0000_0000_0000_0000u128 & !(0xfu128 << 76))
            | (version << 76);
        assert_eq!(ctx.validate(id, &args).is_ok(), version == 4);
    }
    // The neighbouring half bytes do not count.
    assert_eq!(ctx.validate(4u128 << 72, &args), Err(ProgramError::InvalidUUID));
    assert_eq!(ctx.validate(4u128 << 80, &args), Err(ProgramError::InvalidUUID));
}

#[test]
fn create_event_rejects_dates_out_of_order() {
    let mut ctx = create_ctx();
    assert_eq!(
        ctx.create_event(V4, args_with(200, 200, None)),
        Err(ProgramError::InvalidEndDate)
    );
    assert_eq!(
        ctx.create_event(V4, args_with(201, 200, None)),
        Err(ProgramError::InvalidEndDate)
    );
    assert_eq!(ctx, create_ctx());
    assert_eq!(ctx.create_event(V4, args_with(199, 200, None)), Ok(()));
}

#[test]
fn create_event_rejects_a_deadline_outside_the_dates() {
    let mut ctx = create_ctx();
    assert_eq!(
        ctx.create_event(V4, args_with(100, 200, Some(99))),
        Err(ProgramError::InvalidEndDate)
    );
    assert_eq!(
        ctx.create_event(V4, args_with(100, 200, Some(201))),
        Err(ProgramError::InvalidEndDate)
    );
    assert_eq!(ctx.create_event(V4, args_with(100, 200, Some(100))), Ok(()));
    assert_eq!(ctx.create_event(V4, args_with(100, 200, Some(200))), Ok(()));
}

#[test]
fn identifier_is_checked_before_the_dates() {
    let ctx = create_ctx();
    assert_eq!(ctx.validate(0, &args_with(5, 1, Some(9))), Err(ProgramError::InvalidUUID));
}

#[test]
fn dates_are_checked_at_the_ends_of_time() {
    assert!(check_dates(i64::MIN, i64::MAX, Some(i64::MIN)));
    assert!(check_dates(i64::MIN, i64::MAX, Some(i64::MAX)));
    assert!(!check_dates(i64::MAX, i64::MAX, None));
    assert!(!check_dates(i64::MAX, i64::MIN, None));
}

// ------------------------ Changes before the start --------------------- //

fn update_ctx() -> UpdateEvent {
    UpdateEvent {
        authority: creator_key(),
        event: Event { participation_deadline: Some(150), ..fresh_event() },
        event_meta: EventMeta { version: 1, id: V4, ..blank_meta() },
    }
}

#[test]
fn event_can_be_changed_before_it_starts_only() {
    let event = fresh_event();
    assert_eq!(check_change(&creator_key(), &event, 99), Ok(()));
    assert_eq!(check_change(&creator_key(), &event, 100), Err(ProgramError::EventAlreadyStarted));
    assert_eq!(check_change(&creator_key(), &event, 101), Err(ProgramError::EventAlreadyStarted));
    assert_eq!(check_change(&other_key(), &event, 99), Err(ProgramError::AuthorityMismatch));
    assert_eq!(check_change(&other_key(), &event, 100), Err(ProgramError::AuthorityMismatch));
}

#[test]
fn update_event_name_and_description() {
    let mut ctx = update_ctx();
    assert_eq!(ctx.update_event_name(V4, [5u8; 32], 50), Ok(()));
    assert_eq!(ctx.update_event_description(V4, [6u8; 256], 50), Ok(()));
    assert_eq!(ctx.event_meta.name, [5u8; 32]);
    assert_eq!(ctx.event_meta.description, [6u8; 256]);
    assert_eq!(ctx.event, update_ctx().event);
    let before = ctx;
    assert_eq!(ctx.update_event_name(V4, [9u8; 32], 100), Err(ProgramError::EventAlreadyStarted));
    assert_eq!(
        ctx.update_event_description(V4, [9u8; 256], 100),
        Err(ProgramError::EventAlreadyStarted)
    );
    ctx.authority = other_key();
    assert_eq!(ctx.update_event_name(V4, [9u8; 32], 50), Err(ProgramError::AuthorityMismatch));
    ctx.authority = creator_key();
    assert_eq!(ctx, before);
}

#[test]
fn update_event_end_date_keeps_the_dates_valid() {
    let mut ctx = update_ctx();
    assert_eq!(ctx.update_event_end_date(V4, 300, 50), Ok(()));
    assert_eq!(ctx.event.end_date, 300);
    assert_eq!(ctx.update_event_end_date(V4, 150, 50), Ok(()));
    let before = ctx;
    assert_eq!(ctx.update_event_end_date(V4, 100, 50), Err(ProgramError::InvalidEndDate));
    assert_eq!(ctx.update_event_end_date(V4, 99, 50), Err(ProgramError::InvalidEndDate));
    // The deadline of 150 must stay within the dates.
    assert_eq!(ctx.update_event_end_date(V4, 149, 50), Err(ProgramError::InvalidEndDate));
    assert_eq!(ctx.update_event_end_date(V4, 300, 100), Err(ProgramError::EventAlreadyStarted));
    assert_eq!(ctx, before);
}

#[test]
fn update_event_participation_deadline_keeps_the_dates_valid() {
    let mut ctx = update_ctx();
    assert_eq!(ctx.update_event_participation_deadline(V4, Some(100), 50), Ok(()));
    assert_eq!(ctx.event.participation_deadline, Some(100));
    assert_eq!(ctx.update_event_participation_deadline(V4, Some(200), 50), Ok(()));
    assert_eq!(ctx.update_event_participation_deadline(V4, None, 50), Ok(()));
    assert_eq!(ctx.event.participation_deadline, None);
    let before = ctx;
    assert_eq!(
        ctx.update_event_participation_deadline(V4, Some(99), 50),
        Err(ProgramError::InvalidEndDate)
    );
    assert_eq!(
        ctx.update_event_participation_deadline(V4, Some(201), 50),
        Err(ProgramError::InvalidEndDate)
    );
    assert_eq!(
        ctx.update_event_participation_deadline(V4, Some(150), 100),
        Err(ProgramError::EventAlreadyStarted)
    );
    assert_eq!(ctx, before);
}

// ------------------------------- Options ------------------------------- //

#[test]
fn options_are_appended_in_order() {
    let mut ctx =
        CreateEventOption { authority: creator_key(), option: blank_option(), event: fresh_event() };
    assert_eq!(ctx.create_event_option(1, V4, [1u8; 256], 50), Err(ProgramError::InvalidIndex));
    assert_eq!(ctx.create_event_option(0, V4, [1u8; 256], 50), Ok(()));
    assert_eq!(
        ctx.option,
        EventOption {
            version: 1,
            index: 0,
            event_id: V4,
            description: [1u8; 256],
            votes: 0,
            vault_balance: 0
        }
    );
    assert_eq!(ctx.event.option_count, 1);
    let before = ctx;
    assert_eq!(ctx.create_event_option(0, V4, [2u8; 256], 50), Err(ProgramError::InvalidIndex));
    assert_eq!(ctx.create_event_option(2, V4, [2u8; 256], 50), Err(ProgramError::InvalidIndex));
    assert_eq!(ctx, before);
    assert_eq!(ctx.create_event_option(1, V4, [2u8; 256], 50), Ok(()));
    assert_eq!(ctx.event.option_count, 2);
}

#[test]
fn options_are_limited_in_number() {
    assert_eq!(MAX_OPTION_COUNT, 20);
    let mut ctx =
        CreateEventOption { authority: creator_key(), option: blank_option(), event: fresh_event() };
    for index in 0..20u8 {
        assert_eq!(ctx.create_event_option(index, V4, [index; 256], 50), Ok(()));
    }
    assert_eq!(ctx.event.option_count, 20);
    let before = ctx;
    assert_eq!(ctx.create_event_option(20, V4, [0u8; 256], 50), Err(ProgramError::TooManyOptions));
    assert_eq!(ctx, before);
}

#[test]
fn options_are_added_by_the_creator_before_the_start() {
    let mut ctx =
        CreateEventOption { authority: creator_key(), option: blank_option(), event: fresh_event() };
    assert_eq!(
        ctx.create_event_option(0, V4, [1u8; 256], 100),
        Err(ProgramError::EventAlreadyStarted)
    );
    ctx.authority = other_key();
    assert_eq!(
        ctx.create_event_option(0, V4, [1u8; 256], 50),
        Err(ProgramError::AuthorityMismatch)
    );
}

#[test]
fn update_event_option_replaces_the_description() {
    let option = EventOption { version: 1, index: 1, event_id: V4, ..blank_option() };
    let mut ctx = UpdateEventOption { authority: creator_key(), event: fresh_event(), option };
    assert_eq!(ctx.update_event_option(1, V4, [3u8; 256], 50), Ok(()));
    assert_eq!(ctx.option, EventOption { description: [3u8; 256], ..option });
    let before = ctx;
    assert_eq!(ctx.update_event_option(0, V4, [4u8; 256], 50), Err(ProgramError::InvalidIndex));
    assert_eq!(
        ctx.update_event_option(1, V4, [4u8; 256], 100),
        Err(ProgramError::EventAlreadyStarted)
    );
    ctx.authority = other_key();
    assert_eq!(
        ctx.update_event_option(1, V4, [4u8; 256], 50),
        Err(ProgramError::AuthorityMismatch)
    );
    ctx.authority = creator_key();
    assert_eq!(ctx, before);
}

// ----------------------------- Cancellation ---------------------------- //

#[test]
fn creator_cancels_after_the_end() {
    let mut ctx = CancelEvent { sender: creator_key(), event: fresh_event() };
    assert_eq!(ctx.cancel_event(V4, 200), Err(ProgramError::EventIsNotOver));
    assert!(!ctx.event.canceled);
    assert_eq!(ctx.cancel_event(V4, 201), Ok(()));
    assert_eq!(ctx.event, Event { canceled: true, ..fresh_event() });
}

#[test]
fn anyone_cancels_an_abandoned_event() {
    assert_eq!(COMPLETION_DEADLINE, 86_400);
    let mut ctx = CancelEvent { sender: other_key(), event: fresh_event() };
    assert_eq!(ctx.cancel_event(V4, 150), Err(ProgramError::EventIsNotOver));
    assert_eq!(ctx.cancel_event(V4, 201), Err(ProgramError::AuthorityMismatch));
    assert_eq!(ctx.cancel_event(V4, 200 + 86_400), Err(ProgramError::AuthorityMismatch));
    assert!(!ctx.event.canceled);
    assert_eq!(ctx.cancel_event(V4, 200 + 86_400 + 1), Ok(()));
    assert!(ctx.event.canceled);
}

#[test]
fn cancellation_at_the_end_of_time() {
    let event = Event { start_date: 0, end_date: i64::MAX - 1, ..fresh_event() };
    let mut ctx = CancelEvent { sender: other_key(), event };
    assert_eq!(ctx.cancel_event(V4, i64::MAX), Err(ProgramError::AuthorityMismatch));
    ctx.sender = creator_key();
    assert_eq!(ctx.cancel_event(V4, i64::MAX), Ok(()));
}

#[test]
fn canceled_or_completed_event_is_not_canceled() {
    let mut ctx =
        CancelEvent { sender: creator_key(), event: Event { canceled: true, ..fresh_event() } };
    assert_eq!(ctx.cancel_event(V4, 201), Err(ProgramError::CanceledEvent));
    let event = Event { result: Some(0), option_count: 2, ..fresh_event() };
    let mut ctx = CancelEvent { sender: creator_key(), event };
    assert_eq!(ctx.cancel_event(V4, 201), Err(ProgramError::CompletedEvent));
    assert_eq!(ctx.event, event);
}

// ----------------------------- Completion ------------------------------ //

fn complete_ctx() -> CompleteEvent {
    CompleteEvent { authority: creator_key(), event: Event { option_count: 2, ..fresh_event() } }
}

#[test]
fn creator_declares_the_outcome_after_the_end() {
    let mut ctx = complete_ctx();
    assert_eq!(ctx.complete_event(V4, 1, 200), Err(ProgramError::EventIsNotOver));
    assert_eq!(ctx.event.result, None);
    assert_eq!(ctx.complete_event(V4, 1, 201), Ok(()));
    assert_eq!(ctx.event, Event { result: Some(1), ..complete_ctx().event });
}

#[test]
fn outcome_names_an_existing_option() {
    let mut ctx = complete_ctx();
    assert_eq!(ctx.complete_event(V4, 2, 201), Err(ProgramError::InvalidIndex));
    assert_eq!(ctx.complete_event(V4, 255, 201), Err(ProgramError::InvalidIndex));
    assert_eq!(ctx, complete_ctx());
    let mut ctx = CompleteEvent { authority: creator_key(), event: fresh_event() };
    assert_eq!(ctx.complete_event(V4, 0, 201), Err(ProgramError::InvalidIndex));
}

#[test]
fn outcome_is_declared_once_and_not_after_cancellation() {
    let mut ctx = complete_ctx();
    assert_eq!(ctx.complete_event(V4, 1, 201), Ok(()));
    assert_eq!(ctx.complete_event(V4, 0, 202), Err(ProgramError::CompletedEvent));
    assert_eq!(ctx.event.result, Some(1));
    let mut ctx = complete_ctx();
    ctx.event.canceled = true;
    assert_eq!(ctx.complete_event(V4, 1, 201), Err(ProgramError::CanceledEvent));
    assert_eq!(ctx.event.result, None);
}

#[test]
fn outcome_is_declared_by_the_creator_only() {
    let mut ctx = complete_ctx();
    ctx.authority = other_key();
    assert_eq!(ctx.complete_event(V4, 1, 201), Err(ProgramError::AuthorityMismatch));
    assert_eq!(ctx.complete_event(V4, 1, 200 + 86_400 + 1), Err(ProgramError::AuthorityMismatch));
}
