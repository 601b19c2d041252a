use predictory::context::constants::INITIAL_LVL;
use predictory::context::contract_state::{InitializeContractState, UpdateContractState};
use predictory::context::user::{CreateUser, TransferStake, WithdrawStake};
use predictory::error::ProgramError;
use predictory::pubkey::Pubkey;
use predictory::state::contract_state::State;
use predictory::state::user::User;

fn wallet(n: u8) -> Pubkey {
    Pubkey::new_from_array([n; 32])
}

fn account(stake: u64, locked_stake: u64) -> User {
    User { version: 1, payer: wallet(1), stake, locked_stake, trust_lvl: 5, name: [3u8; 32] }
}

#[test]
fn keys_are_equal_if_all_bytes_are() {
    let mut bytes = [0u8; 32];
    assert!(Pubkey::new_from_array(bytes) == wallet(0));
    for i in 0..32 {
        bytes[i] = 1;
        assert!(Pubkey::new_from_array(bytes) != wallet(0));
        bytes[i] = 0;
    }
    assert_eq!(wallet(5).to_bytes(), [5u8; 32]);
}

#[test]
fn create_user_starts_without_collateral() {
    assert_eq!(INITIAL_LVL, 5);
    let mut ctx = CreateUser { sender: wallet(1), user: account(77, 66) };
    assert_eq!(ctx.create_user([3u8; 32]), Ok(()));
    assert_eq!(ctx.user, account(0, 0));
}

#[test]
fn transfer_stake_adds_to_the_free_stake() {
    let mut ctx = TransferStake { sender: wallet(1), user: account(10, 4) };
    assert_eq!(ctx.transfer_stake(90), Ok(()));
    assert_eq!(ctx.user, account(100, 4));
    assert_eq!(ctx.transfer_stake(0), Ok(()));
    assert_eq!(ctx.user, account(100, 4));
}

#[test]
fn transfer_stake_beyond_the_range_is_refused() {
    let mut ctx = TransferStake { sender: wallet(1), user: account(10, 4) };
    assert_eq!(ctx.transfer_stake(u64::MAX - 9), Err(ProgramError::ValueOverflow));
    assert_eq!(ctx.user, account(10, 4));
    assert_eq!(ctx.transfer_stake(u64::MAX - 10), Ok(()));
    assert_eq!(ctx.user, account(u64::MAX, 4));
}

#[test]
fn transfer_stake_to_another_is_refused() {
    let mut ctx = TransferStake { sender: wallet(2), user: account(10, 4) };
    assert_eq!(ctx.transfer_stake(90), Err(ProgramError::AuthorityMismatch));
    assert_eq!(ctx.user, account(10, 4));
}

#[test]
fn withdraw_hands_out_the_stake_beyond_the_locked_stake() {
    let mut ctx = WithdrawStake { sender: wallet(1), user: account(100, 30) };
    assert_eq!(ctx.withdraw(), Ok(70));
    assert_eq!(ctx.user, account(30, 30));
    assert_eq!(ctx.withdraw(), Ok(0));
    assert_eq!(ctx.user, account(30, 30));
}

#[test]
fn withdraw_of_an_unlocked_stake_hands_out_all() {
    let mut ctx = WithdrawStake { sender: wallet(1), user: account(100, 0) };
    assert_eq!(ctx.withdraw(), Ok(100));
    assert_eq!(ctx.user, account(0, 0));
}

#[test]
fn withdraw_is_refused_while_more_is_locked_than_free() {
    let mut ctx = WithdrawStake { sender: wallet(1), user: account(29, 30) };
    assert_eq!(ctx.withdraw(), Err(ProgramError::AllStakeLocked));
    assert_eq!(ctx.user, account(29, 30));
}

#[test]
fn withdraw_by_another_is_refused() {
    let mut ctx = WithdrawStake { sender: wallet(2), user: account(100, 30) };
    assert_eq!(ctx.withdraw(), Err(ProgramError::AuthorityMismatch));
    assert_eq!(ctx.user, account(100, 30));
}

fn blank_state() -> State {
    State {
        version: 0,
        authority: wallet(0),
        multiplier: 0,
        event_price: 0,
        platform_fee: 0,
        org_reward: 0,
    }
}

#[test]
fn initialize_contract_state_sets_every_parameter() {
    let mut ctx = InitializeContractState {
        authority: wallet(1),
        state: blank_state(),
        upgrade_authority: Some(wallet(1)),
    };
    assert_eq!(ctx.initialize_contract_state(wallet(2), 3, 4, 5, 6), Ok(()));
    assert_eq!(
        ctx.state,
        State {
            version: 1,
            authority: wallet(2),
            multiplier: 3,
            event_price: 4,
            platform_fee: 5,
            org_reward: 6
        }
    );
}

#[test]
fn initialize_contract_state_is_for_the_upgrade_authority() {
    let mut ctx = InitializeContractState {
        authority: wallet(1),
        state: blank_state(),
        upgrade_authority: Some(wallet(2)),
    };
    assert_eq!(
        ctx.initialize_contract_state(wallet(1), 3, 4, 5, 6),
        Err(ProgramError::AuthorityMismatch)
    );
    assert_eq!(ctx.state, blank_state());
    ctx.upgrade_authority = None;
    assert_eq!(
        ctx.initialize_contract_state(wallet(1), 3, 4, 5, 6),
        Err(ProgramError::AuthorityMismatch)
    );
    assert_eq!(ctx.state, blank_state());
}

#[test]
fn configuration_is_changed_by_its_authority() {
    let state = State { version: 1, authority: wallet(1), ..blank_state() };
    let mut ctx = UpdateContractState { authority: wallet(1), state };
    assert_eq!(ctx.check(), Ok(()));
    assert_eq!(ctx.set_multiplier(9), Ok(()));
    assert_eq!(ctx.set_price(8), Ok(()));
    assert_eq!(ctx.state, State { multiplier: 9, event_price: 8, ..state });
    assert_eq!(ctx.set_authority(wallet(2)), Ok(()));
    assert_eq!(ctx.state, State { authority: wallet(2), multiplier: 9, event_price: 8, ..state });
    // The former authority has handed the configuration over.
    let before = ctx;
    assert_eq!(ctx.check(), Err(ProgramError::AuthorityMismatch));
    assert_eq!(ctx.set_multiplier(1), Err(ProgramError::AuthorityMismatch));
    assert_eq!(ctx.set_price(1), Err(ProgramError::AuthorityMismatch));
    assert_eq!(ctx.set_authority(wallet(1)), Err(ProgramError::AuthorityMismatch));
    assert_eq!(ctx, before);
}
