use predictory::context::event::CreateEventArgs;
use predictory::context::participation::ClaimReceipt;
use predictory::error::ProgramError;
use predictory::ledger::store::Ledger;
use predictory::pubkey::Pubkey;
use predictory::state::appeal::Appellation;
use predictory::state::contract_state::State;
use predictory::state::participation::Participation;
use predictory::state::user::User;

const EVENT: u128 = 0x00000000_0000_4000_8000_000000000001;
const OTHER_EVENT: u128 = 0x00000000_0000_4000_8000_000000000002;
const UNIT: u64 = 1_000_000_000;
const AFTER_WINDOW: i64 = 200 + 86_400 + 86_400 + 1;

fn id(n: u8) -> Pubkey {
    Pubkey::new_from_array([n; 32])
}

fn platform() -> Pubkey {
    id(100)
}

fn organizer() -> Pubkey {
    id(50)
}

fn alice() -> Pubkey {
    id(1)
}

fn bob() -> Pubkey {
    id(2)
}

fn event_args() -> CreateEventArgs {
    CreateEventArgs {
        name: [1u8; 32],
        description: [2u8; 256],
        start_date: 100,
        end_date: 200,
        participation_deadline: None,
    }
}

fn locked_of(ledger: &Ledger, key: &Pubkey) -> u64 {
    ledger.user(key).unwrap().locked_stake
}

fn stake_of(ledger: &Ledger, key: &Pubkey) -> u64 {
    ledger.user(key).unwrap().stake
}

/// A configured ledger with an event of two options, on which Alice has put
/// 100 behind option 0 and Bob 300 behind option 1.
fn market(platform_fee: u64, org_reward: u64) -> Ledger {
    let mut ledger = Ledger::new();
    assert_eq!(
        ledger.initialize_contract_state(
            platform(),
            Some(platform()),
            platform(),
            UNIT,
            0,
            platform_fee,
            org_reward
        ),
        Ok(())
    );
    assert_eq!(ledger.create_user(organizer(), [50u8; 32]), Ok(()));
    assert_eq!(ledger.create_user(alice(), [1u8; 32]), Ok(()));
    assert_eq!(ledger.create_user(bob(), [2u8; 32]), Ok(()));
    assert_eq!(ledger.transfer_stake(alice(), 100), Ok(()));
    assert_eq!(ledger.transfer_stake(bob(), 300), Ok(()));
    assert_eq!(ledger.create_event(organizer(), EVENT, event_args()), Ok(()));
    assert_eq!(ledger.create_event_option(organizer(), EVENT, 0, [10u8; 256], 50), Ok(()));
    assert_eq!(ledger.create_event_option(organizer(), EVENT, 1, [11u8; 256], 50), Ok(()));
    assert_eq!(ledger.vote(alice(), EVENT, 0, 100, 150), Ok(()));
    assert_eq!(ledger.vote(bob(), EVENT, 1, 300, 160), Ok(()));
    ledger
}

#[test]
fn empty_store_holds_nothing() {
    let ledger = Ledger::new();
    assert_eq!(ledger.state(), None);
    assert_eq!(ledger.user(&alice()), None);
    assert_eq!(ledger.event(EVENT), None);
    assert_eq!(ledger.event_meta(EVENT), None);
    assert_eq!(ledger.option(EVENT, 0), None);
    assert_eq!(ledger.participation(EVENT, &alice()), None);
    assert_eq!(ledger.appellation(EVENT), None);
}

#[test]
fn votes_are_recorded_in_every_table() {
    let ledger = market(10, 5);
    let event = ledger.event(EVENT).unwrap();
    assert_eq!(event.participation_count, 2);
    assert_eq!(event.total_amount, 400);
    assert_eq!(event.total_trust, 10);
    assert_eq!(event.option_count, 2);
    assert_eq!(ledger.option(EVENT, 0).unwrap().vault_balance, 100);
    assert_eq!(ledger.option(EVENT, 0).unwrap().votes, 1);
    assert_eq!(ledger.option(EVENT, 1).unwrap().vault_balance, 300);
    assert_eq!(ledger.option(EVENT, 1).unwrap().description, [11u8; 256]);
    assert_eq!(
        ledger.participation(EVENT, &bob()),
        Some(Participation {
            version: 1,
            event_id: EVENT,
            payer: bob(),
            option: 1,
            deposited_amount: 300,
            is_claimed: false,
            appealed: false,
        })
    );
    assert_eq!(
        ledger.user(&alice()),
        Some(User {
            version: 1,
            payer: alice(),
            stake: 0,
            locked_stake: 100,
            trust_lvl: 5,
            name: [1u8; 32]
        })
    );
    assert_eq!(ledger.event_meta(EVENT).unwrap().name, [1u8; 32]);
}

#[test]
fn winner_takes_the_pot_and_loser_is_released() {
    let mut ledger = market(10, 5);
    assert_eq!(ledger.complete_event(organizer(), EVENT, 0, 250), Ok(()));

    assert_eq!(
        ledger.claim_event_reward(alice(), EVENT, AFTER_WINDOW),
        Ok(ClaimReceipt { platform_fee: 0, creator_payout: 0, claim_amount: 370 })
    );
    assert_eq!(stake_of(&ledger, &alice()), 370);
    assert_eq!(locked_of(&ledger, &alice()), 0);
    assert_eq!(ledger.user(&alice()).unwrap().trust_lvl, 5 + 370);

    assert_eq!(
        ledger.claim_event_reward(bob(), EVENT, AFTER_WINDOW),
        Ok(ClaimReceipt { platform_fee: 0, creator_payout: 0, claim_amount: 0 })
    );
    assert_eq!(stake_of(&ledger, &bob()), 0);
    assert_eq!(locked_of(&ledger, &bob()), 0);
    assert_eq!(ledger.user(&bob()).unwrap().trust_lvl, 5 + 300);

    assert_eq!(
        ledger.claim_event_reward(alice(), EVENT, AFTER_WINDOW),
        Err(ProgramError::AlreadyClaimed)
    );
    assert_eq!(
        ledger.claim_event_reward(bob(), EVENT, AFTER_WINDOW + 1),
        Err(ProgramError::AlreadyClaimed)
    );
    assert_eq!(stake_of(&ledger, &alice()), 370);
    assert_eq!(ledger.user(&organizer()).unwrap().stake, 0);
}

#[test]
fn winner_takes_the_whole_pot_without_fees() {
    let mut ledger = market(0, 0);
    assert_eq!(ledger.complete_event(organizer(), EVENT, 0, 250), Ok(()));
    assert_eq!(
        ledger.claim_event_reward(alice(), EVENT, AFTER_WINDOW),
        Ok(ClaimReceipt { platform_fee: 0, creator_payout: 0, claim_amount: 400 })
    );
    assert_eq!(stake_of(&ledger, &alice()), 400);
}

#[test]
fn claims_never_pay_more_than_the_pot() {
    let mut ledger = market(7, 3);
    for n in 3..10u8 {
        assert_eq!(ledger.create_user(id(n), [n; 32]), Ok(()));
        assert_eq!(ledger.transfer_stake(id(n), 1000), Ok(()));
        assert_eq!(ledger.vote(id(n), EVENT, n % 2, 10 * n as u64 + 1, 170), Ok(()));
    }
    let total = ledger.event(EVENT).unwrap().total_amount;
    assert_eq!(total, 400 + 31 + 41 + 51 + 61 + 71 + 81 + 91);
    assert_eq!(ledger.complete_event(organizer(), EVENT, 1, 250), Ok(()));
    let mut paid: u64 = 0;
    for n in 1..10u8 {
        let receipt = ledger.claim_event_reward(id(n), EVENT, AFTER_WINDOW).unwrap();
        paid += receipt.claim_amount + receipt.platform_fee + receipt.creator_payout;
        let voted_for_option_1 = n == 2 || (n > 2 && n % 2 == 1);
        assert_eq!(receipt.claim_amount > 0, voted_for_option_1);
        assert_eq!(locked_of(&ledger, &id(n)), 0);
    }
    // 827 in the pot, of which 7 of fee and 24 of share are set aside.
    assert!(paid <= total - 7 - 24);
    assert!(paid > total - 7 - 24 - 5);
}

#[test]
fn nobody_votes_twice_on_one_event() {
    let mut ledger = market(10, 5);
    assert_eq!(ledger.transfer_stake(alice(), 50), Ok(()));
    let before = ledger.user(&alice());
    assert_eq!(ledger.vote(alice(), EVENT, 0, 10, 170), Err(ProgramError::AccountAlreadyInUse));
    assert_eq!(ledger.vote(alice(), EVENT, 1, 20, 180), Err(ProgramError::AccountAlreadyInUse));
    assert_eq!(ledger.user(&alice()), before);
    assert_eq!(ledger.event(EVENT).unwrap().participation_count, 2);
    assert_eq!(ledger.participation(EVENT, &alice()).unwrap().deposited_amount, 100);

    // Another event is another matter.
    let args = CreateEventArgs { start_date: 150, ..event_args() };
    assert_eq!(ledger.create_event(organizer(), OTHER_EVENT, args), Ok(()));
    assert_eq!(ledger.create_event_option(organizer(), OTHER_EVENT, 0, [0u8; 256], 50), Ok(()));
    assert_eq!(ledger.vote(alice(), OTHER_EVENT, 0, 50, 170), Ok(()));
    assert_eq!(locked_of(&ledger, &alice()), 150);
}

#[test]
fn locked_stake_is_the_sum_of_the_unsettled_deposits() {
    let mut ledger = market(10, 5);
    assert_eq!(ledger.transfer_stake(alice(), 1000), Ok(()));
    let args = CreateEventArgs { start_date: 150, end_date: 300, ..event_args() };
    assert_eq!(ledger.create_event(organizer(), OTHER_EVENT, args), Ok(()));
    assert_eq!(ledger.create_event_option(organizer(), OTHER_EVENT, 0, [0u8; 256], 50), Ok(()));
    assert_eq!(locked_of(&ledger, &alice()), 100);
    assert_eq!(ledger.vote(alice(), OTHER_EVENT, 0, 40, 170), Ok(()));
    assert_eq!(locked_of(&ledger, &alice()), 100 + 40);
    assert_eq!(stake_of(&ledger, &alice()), 1000 - 40);

    // A refused operation locks and unlocks nothing.
    assert_eq!(ledger.recharge(alice(), EVENT), Err(ProgramError::EventIsNotCancelled));
    assert_eq!(
        ledger.claim_event_reward(alice(), EVENT, 250),
        Err(ProgramError::EventIsNotOver)
    );
    assert_eq!(locked_of(&ledger, &alice()), 140);

    // One event is canceled and refunded, the other settled.
    assert_eq!(ledger.cancel_event(organizer(), OTHER_EVENT, 301), Ok(()));
    assert_eq!(ledger.recharge(alice(), OTHER_EVENT), Ok(40));
    assert_eq!(locked_of(&ledger, &alice()), 100);
    assert_eq!(stake_of(&ledger, &alice()), 1000);
    assert_eq!(ledger.complete_event(organizer(), EVENT, 1, 250), Ok(()));
    assert!(ledger.claim_event_reward(alice(), EVENT, AFTER_WINDOW).is_ok());
    assert_eq!(locked_of(&ledger, &alice()), 0);
    assert_eq!(stake_of(&ledger, &alice()), 1000);
    assert_eq!(locked_of(&ledger, &bob()), 300);
}

#[test]
fn canceled_event_refunds_every_deposit_once() {
    let mut ledger = market(10, 5);
    assert_eq!(ledger.cancel_event(organizer(), EVENT, 200), Err(ProgramError::EventIsNotOver));
    assert_eq!(ledger.cancel_event(organizer(), EVENT, 201), Ok(()));
    assert!(ledger.event(EVENT).unwrap().canceled);

    assert_eq!(ledger.recharge(alice(), EVENT), Ok(100));
    assert_eq!(stake_of(&ledger, &alice()), 100);
    assert_eq!(locked_of(&ledger, &alice()), 0);
    assert!(ledger.participation(EVENT, &alice()).unwrap().is_claimed);
    assert_eq!(ledger.recharge(alice(), EVENT), Err(ProgramError::AlreadyClaimed));
    assert_eq!(stake_of(&ledger, &alice()), 100);

    assert_eq!(ledger.recharge(bob(), EVENT), Ok(300));
    assert_eq!(stake_of(&ledger, &bob()), 300);
    assert_eq!(ledger.recharge(bob(), EVENT), Err(ProgramError::AlreadyClaimed));

    // No outcome is declared any more, and nothing is settled.
    assert_eq!(
        ledger.complete_event(organizer(), EVENT, 0, 250),
        Err(ProgramError::CanceledEvent)
    );
    assert_eq!(
        ledger.claim_event_reward(alice(), EVENT, AFTER_WINDOW),
        Err(ProgramError::EventIsNotOver)
    );
    assert_eq!(ledger.withdraw_stake(alice()), Ok(100));
    assert_eq!(stake_of(&ledger, &alice()), 0);
}

#[test]
fn refund_needs_a_vote() {
    let mut ledger = market(10, 5);
    assert_eq!(ledger.cancel_event(organizer(), EVENT, 201), Ok(()));
    assert_eq!(ledger.recharge(organizer(), EVENT), Err(ProgramError::AccountNotInitialized));
    assert_eq!(ledger.recharge(id(77), EVENT), Err(ProgramError::AccountNotInitialized));
    assert_eq!(ledger.recharge(alice(), OTHER_EVENT), Err(ProgramError::AccountNotInitialized));
}

#[test]
fn voting_window_includes_its_ends() {
    for (now, expected) in [
        (99, Err(ProgramError::InactiveEvent)),
        (100, Ok(())),
        (200, Ok(())),
        (201, Err(ProgramError::InactiveEvent)),
    ] {
        let mut ledger = market(10, 5);
        assert_eq!(ledger.create_user(id(3), [3u8; 32]), Ok(()));
        assert_eq!(ledger.transfer_stake(id(3), 10), Ok(()));
        assert_eq!(ledger.vote(id(3), EVENT, 0, 10, now), expected);
        assert_eq!(locked_of(&ledger, &id(3)), if expected.is_ok() { 10 } else { 0 });
    }
}

#[test]
fn dispute_window_includes_its_last_moment() {
    for (now, expected) in [
        (200, Err(ProgramError::ActiveEvent)),
        (251, Ok(0)),
        (AFTER_WINDOW - 1, Ok(0)),
        (AFTER_WINDOW, Err(ProgramError::AppellationDeadlinePassed)),
    ] {
        let mut ledger = market(10, 5);
        assert_eq!(ledger.complete_event(organizer(), EVENT, 0, 250), Ok(()));
        assert_eq!(ledger.appeal(bob(), EVENT, now), expected);
        assert_eq!(ledger.appellation(EVENT).is_some(), expected.is_ok());
    }
}

#[test]
fn disputes_are_counted_on_one_record() {
    let mut ledger = market(10, 5);
    assert_eq!(ledger.appeal(bob(), EVENT, 250), Err(ProgramError::EventIsNotOver));
    assert_eq!(ledger.complete_event(organizer(), EVENT, 0, 250), Ok(()));
    assert_eq!(ledger.appeal(bob(), EVENT, 260), Ok(0));
    assert_eq!(
        ledger.appellation(EVENT),
        Some(Appellation {
            version: 1,
            event_id: EVENT,
            disagree_count: 1,
            disagree_trust_lvl: 5,
            disagree_volume: 300
        })
    );
    assert_eq!(ledger.appeal(bob(), EVENT, 261), Err(ProgramError::AlreadyAppealed));
    assert_eq!(ledger.appeal(alice(), EVENT, 262), Ok(0));
    assert_eq!(
        ledger.appellation(EVENT),
        Some(Appellation {
            version: 1,
            event_id: EVENT,
            disagree_count: 2,
            disagree_trust_lvl: 10,
            disagree_volume: 400
        })
    );
    // Who has disputed the outcome does not claim.
    assert_eq!(
        ledger.claim_event_reward(bob(), EVENT, AFTER_WINDOW),
        Err(ProgramError::AlreadyAppealed)
    );
    assert_eq!(locked_of(&ledger, &bob()), 300);
}

#[test]
fn creator_may_vote_and_claim_on_one_record() {
    let mut ledger = market(10, 5);
    assert_eq!(ledger.transfer_stake(organizer(), 100), Ok(()));
    assert_eq!(ledger.vote(organizer(), EVENT, 0, 100, 170), Ok(()));
    assert_eq!(ledger.complete_event(organizer(), EVENT, 0, 250), Ok(()));
    // 500 in the pot, 10 of fee and 25 of share, half of the rest each.
    assert_eq!(
        ledger.claim_event_reward(organizer(), EVENT, AFTER_WINDOW),
        Ok(ClaimReceipt { platform_fee: 0, creator_payout: 0, claim_amount: 232 })
    );
    assert_eq!(
        ledger.user(&organizer()),
        Some(User {
            version: 1,
            payer: organizer(),
            stake: 232,
            locked_stake: 0,
            trust_lvl: 5 + 232,
            name: [50u8; 32]
        })
    );
    assert_eq!(
        ledger.claim_event_reward(alice(), EVENT, AFTER_WINDOW),
        Ok(ClaimReceipt { platform_fee: 0, creator_payout: 0, claim_amount: 232 })
    );
}

#[test]
fn burned_trust_unlocks_part_of_the_deposit() {
    let mut ledger = Ledger::new();
    assert_eq!(
        ledger.initialize_contract_state(platform(), Some(platform()), platform(), 2, 0, 0, 0),
        Ok(())
    );
    assert_eq!(ledger.create_user(organizer(), [50u8; 32]), Ok(()));
    assert_eq!(ledger.create_user(alice(), [1u8; 32]), Ok(()));
    assert_eq!(ledger.transfer_stake(alice(), 3 * UNIT), Ok(()));
    assert_eq!(ledger.create_event(organizer(), EVENT, event_args()), Ok(()));
    assert_eq!(ledger.create_event_option(organizer(), EVENT, 0, [0u8; 256], 50), Ok(()));
    assert_eq!(ledger.vote(alice(), EVENT, 0, 3 * UNIT, 150), Ok(()));
    assert_eq!(ledger.burn_trust(alice(), EVENT, 6, 160), Err(ProgramError::NotEnoughTrust));
    assert_eq!(ledger.burn_trust(alice(), EVENT, 4, 160), Ok(2 * UNIT));
    assert_eq!(
        ledger.user(&alice()),
        Some(User {
            version: 1,
            payer: alice(),
            stake: 2 * UNIT,
            locked_stake: UNIT,
            trust_lvl: 1,
            name: [1u8; 32]
        })
    );
    assert_eq!(ledger.participation(EVENT, &alice()).unwrap().deposited_amount, UNIT);
    assert_eq!(ledger.event(EVENT).unwrap().total_amount, UNIT);
    assert_eq!(ledger.option(EVENT, 0).unwrap().vault_balance, UNIT);
    assert_eq!(ledger.burn_trust(bob(), EVENT, 1, 160), Err(ProgramError::AccountNotInitialized));
}

#[test]
fn pot_is_the_sum_of_the_deposits_after_trust_was_burned() {
    let mut ledger = Ledger::new();
    assert_eq!(
        ledger.initialize_contract_state(platform(), Some(platform()), platform(), 5, 0, 0, 0),
        Ok(())
    );
    assert_eq!(ledger.create_user(organizer(), [50u8; 32]), Ok(()));
    assert_eq!(ledger.create_user(alice(), [1u8; 32]), Ok(()));
    assert_eq!(ledger.create_user(bob(), [2u8; 32]), Ok(()));
    assert_eq!(ledger.transfer_stake(alice(), 2 * UNIT), Ok(()));
    assert_eq!(ledger.transfer_stake(bob(), 6 * UNIT), Ok(()));
    assert_eq!(ledger.create_event(organizer(), EVENT, event_args()), Ok(()));
    assert_eq!(ledger.create_event_option(organizer(), EVENT, 0, [0u8; 256], 50), Ok(()));
    assert_eq!(ledger.create_event_option(organizer(), EVENT, 1, [1u8; 256], 50), Ok(()));
    assert_eq!(ledger.vote(alice(), EVENT, 0, 2 * UNIT, 150), Ok(()));
    assert_eq!(ledger.vote(bob(), EVENT, 1, 6 * UNIT, 150), Ok(()));
    assert_eq!(ledger.complete_event(organizer(), EVENT, 0, 250), Ok(()));
    // Bob has lost and takes back what his trust is worth: one unit.
    assert_eq!(ledger.burn_trust(bob(), EVENT, 5, 260), Ok(UNIT));
    assert_eq!(ledger.event(EVENT).unwrap().total_amount, 7 * UNIT);
    assert_eq!(ledger.option(EVENT, 1).unwrap().vault_balance, 5 * UNIT);
    assert_eq!(stake_of(&ledger, &bob()), UNIT);
    assert_eq!(locked_of(&ledger, &bob()), 5 * UNIT);
    // Alice wins what is left in the pot, no more.
    assert_eq!(
        ledger.claim_event_reward(alice(), EVENT, AFTER_WINDOW),
        Ok(ClaimReceipt { platform_fee: 0, creator_payout: 0, claim_amount: 7 * UNIT })
    );
    assert_eq!(
        ledger.claim_event_reward(bob(), EVENT, AFTER_WINDOW),
        Ok(ClaimReceipt { platform_fee: 0, creator_payout: 0, claim_amount: 0 })
    );
    assert_eq!(locked_of(&ledger, &bob()), 0);
    assert_eq!(stake_of(&ledger, &bob()), UNIT);
    assert_eq!(stake_of(&ledger, &alice()), 7 * UNIT);
}

#[test]
fn records_are_created_once() {
    let mut ledger = market(10, 5);
    assert_eq!(ledger.create_user(alice(), [9u8; 32]), Err(ProgramError::AccountAlreadyInUse));
    assert_eq!(ledger.user(&alice()).unwrap().name, [1u8; 32]);
    assert_eq!(
        ledger.create_event(bob(), EVENT, event_args()),
        Err(ProgramError::AccountAlreadyInUse)
    );
    assert_eq!(ledger.event(EVENT).unwrap().authority, organizer());
    assert_eq!(
        ledger.create_event_option(organizer(), EVENT, 1, [0u8; 256], 50),
        Err(ProgramError::AccountAlreadyInUse)
    );
    assert_eq!(
        ledger.initialize_contract_state(bob(), Some(bob()), bob(), 1, 1, 1, 1),
        Err(ProgramError::AccountAlreadyInUse)
    );
    assert_eq!(ledger.state().unwrap().authority, platform());
}

#[test]
fn missing_records_are_reported() {
    let mut ledger = Ledger::new();
    let missing = Err(ProgramError::AccountNotInitialized);
    assert_eq!(ledger.set_contract_multiplier(platform(), 1), missing);
    assert_eq!(ledger.set_contract_authority(platform(), bob()), missing);
    assert_eq!(ledger.set_event_price(platform(), 1), missing);
    assert_eq!(ledger.transfer_stake(alice(), 1), missing);
    assert_eq!(ledger.withdraw_stake(alice()), Err(ProgramError::AccountNotInitialized));
    assert_eq!(ledger.update_event_name(organizer(), EVENT, [0u8; 32], 1), missing);
    assert_eq!(ledger.update_event_description(organizer(), EVENT, [0u8; 256], 1), missing);
    assert_eq!(ledger.update_event_end_date(organizer(), EVENT, 5, 1), missing);
    assert_eq!(ledger.update_event_participation_deadline(organizer(), EVENT, None, 1), missing);
    assert_eq!(ledger.create_event_option(organizer(), EVENT, 0, [0u8; 256], 1), missing);
    assert_eq!(ledger.update_event_option(organizer(), EVENT, 0, [0u8; 256], 1), missing);
    assert_eq!(ledger.cancel_event(organizer(), EVENT, 1), missing);
    assert_eq!(ledger.complete_event(organizer(), EVENT, 0, 1), missing);
    assert_eq!(ledger.vote(alice(), EVENT, 0, 1, 1), missing);
    assert_eq!(ledger.claim_event_reward(alice(), EVENT, 1), Err(ProgramError::AccountNotInitialized));
    assert_eq!(ledger.appeal(alice(), EVENT, 1), Err(ProgramError::AccountNotInitialized));

    let mut ledger = market(10, 5);
    assert_eq!(ledger.vote(id(3), EVENT, 0, 1, 150), missing);
    assert_eq!(ledger.vote(alice(), OTHER_EVENT, 0, 1, 150), missing);
    assert_eq!(ledger.create_user(id(3), [3u8; 32]), Ok(()));
    assert_eq!(ledger.vote(id(3), EVENT, 2, 0, 150), missing);
    assert_eq!(ledger.vote(id(3), EVENT, 1, 0, 150), Ok(()));
}

#[test]
fn event_is_changed_through_the_store() {
    let mut ledger = market(10, 5);
    let args = CreateEventArgs { start_date: 1000, end_date: 2000, ..event_args() };
    assert_eq!(ledger.create_event(organizer(), OTHER_EVENT, args), Ok(()));
    assert_eq!(ledger.update_event_name(organizer(), OTHER_EVENT, [7u8; 32], 500), Ok(()));
    assert_eq!(ledger.update_event_description(organizer(), OTHER_EVENT, [8u8; 256], 500), Ok(()));
    assert_eq!(ledger.update_event_end_date(organizer(), OTHER_EVENT, 3000, 500), Ok(()));
    assert_eq!(
        ledger.update_event_participation_deadline(organizer(), OTHER_EVENT, Some(2500), 500),
        Ok(())
    );
    assert_eq!(ledger.create_event_option(organizer(), OTHER_EVENT, 0, [1u8; 256], 500), Ok(()));
    assert_eq!(ledger.update_event_option(organizer(), OTHER_EVENT, 0, [2u8; 256], 500), Ok(()));
    let meta = ledger.event_meta(OTHER_EVENT).unwrap();
    assert_eq!(meta.name, [7u8; 32]);
    assert_eq!(meta.description, [8u8; 256]);
    assert_eq!(meta.id, OTHER_EVENT);
    let event = ledger.event(OTHER_EVENT).unwrap();
    assert_eq!(event.end_date, 3000);
    assert_eq!(event.participation_deadline, Some(2500));
    assert_eq!(ledger.option(OTHER_EVENT, 0).unwrap().description, [2u8; 256]);
    // The first event is as it was.
    assert_eq!(ledger.event(EVENT).unwrap().end_date, 200);
    assert_eq!(ledger.event_meta(EVENT).unwrap().name, [1u8; 32]);
    assert_eq!(ledger.option(EVENT, 0).unwrap().description, [10u8; 256]);

    assert_eq!(
        ledger.update_event_name(alice(), OTHER_EVENT, [0u8; 32], 500),
        Err(ProgramError::AuthorityMismatch)
    );
    assert_eq!(
        ledger.update_event_end_date(organizer(), OTHER_EVENT, 2499, 500),
        Err(ProgramError::InvalidEndDate)
    );
    assert_eq!(
        ledger.update_event_name(organizer(), EVENT, [0u8; 32], 500),
        Err(ProgramError::EventAlreadyStarted)
    );
}

#[test]
fn configuration_is_changed_through_the_store() {
    let mut ledger = market(10, 5);
    assert_eq!(
        ledger.set_contract_multiplier(alice(), 1),
        Err(ProgramError::AuthorityMismatch)
    );
    assert_eq!(ledger.set_contract_multiplier(platform(), 7), Ok(()));
    assert_eq!(ledger.set_event_price(platform(), 8), Ok(()));
    assert_eq!(ledger.set_contract_authority(platform(), alice()), Ok(()));
    assert_eq!(
        ledger.state(),
        Some(State {
            version: 1,
            authority: alice(),
            multiplier: 7,
            event_price: 8,
            platform_fee: 10,
            org_reward: 5
        })
    );
    assert_eq!(ledger.set_event_price(platform(), 9), Err(ProgramError::AuthorityMismatch));

    let mut fresh = Ledger::new();
    assert_eq!(
        fresh.initialize_contract_state(alice(), Some(bob()), alice(), 1, 1, 1, 1),
        Err(ProgramError::AuthorityMismatch)
    );
    assert_eq!(fresh.state(), None);
}

#[test]
fn withdrawal_leaves_what_is_locked() {
    let mut ledger = market(10, 5);
    assert_eq!(ledger.transfer_stake(alice(), 250), Ok(()));
    // 250 free and 100 locked: 150 are handed out.
    assert_eq!(ledger.withdraw_stake(alice()), Ok(150));
    assert_eq!(stake_of(&ledger, &alice()), 100);
    assert_eq!(locked_of(&ledger, &alice()), 100);
    // Bob has nothing free and 300 locked.
    assert_eq!(ledger.withdraw_stake(bob()), Err(ProgramError::AllStakeLocked));
}
