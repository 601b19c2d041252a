//! What registrations, deposits, withdrawals and votes do to the records of
//! a store, and that they keep the store well-formed.

use vstd::prelude::*;
use crate::context::participation::Vote;
use crate::context::user::{new_user, TransferStake, WithdrawStake};
use crate::error::ProgramError;
use crate::ledger::accounting::{
    deposit_weight, deposited_behind, deposited_on, event_deposit_weight, event_weight,
    lemma_total_push, lemma_total_update, locked_by_events, locked_by_votes, pot_weight,
    recorded_locked, recorded_pot, recorded_vault, user_weight, vault_weight, vote_weight,
};
use crate::ledger::view::LedgerView;
use crate::pubkey::Pubkey;
use crate::state::participation::Participation;
use crate::state::user::User;

verus! {

/// A vote record before it is filled.
pub open spec fn blank_participation(event_id: u128, payer: Pubkey) -> Participation {
    Participation {
        version: 0,
        event_id,
        payer,
        option: 0,
        deposited_amount: 0,
        is_claimed: false,
        appealed: false,
    }
}

impl LedgerView {
    // ----------------------------- Users ------------------------------- //
    /// The result of registering `sender`.
    pub open spec fn create_user_result(self, sender: Pubkey) -> Result<(), ProgramError> {
        if self.user_index(sender) is Some {
            Err(ProgramError::AccountAlreadyInUse)
        } else {
            Ok(())
        }
    }

    /// The store after the registration of `sender` as `name` was asked for.
    pub open spec fn after_create_user(self, sender: Pubkey, name: [u8; 32]) -> LedgerView {
        if self.create_user_result(sender) is Ok {
            LedgerView {
users: self.users.push(new_user(sender, name)), ..self
            }
        } else {
            self
        }
    }

    /// The records of a deposit by `sender`, if `sender` is registered.
    pub open spec fn transfer_stake_context(self, sender: Pubkey) -> Option<TransferStake> {
        match self.user_index(sender) {
            Some(u) => Some(TransferStake { sender, user: self.users[u] }),
            None => None,
        }
    }

    /// The result of a deposit of `stake` by `sender`.
    pub open spec fn transfer_stake_result(self, sender: Pubkey, stake: u64) -> Result<
        (),
        ProgramError,
    > {
        match self.transfer_stake_context(sender) {
            None => Err(ProgramError::AccountNotInitialized),
            Some(ctx) => match ctx.refusal(stake) {
                Some(e) => Err(e),
                None => Ok(()),
            },
        }
    }

    /// The store after a deposit of `stake` by `sender` was asked for.
    pub open spec fn after_transfer_stake(self, sender: Pubkey, stake: u64) -> LedgerView {
        if self.transfer_stake_result(sender, stake) is Ok {
            let u = self.user_index(sender)->0;
            LedgerView {
                users: self.users.update(
                    u,
                    User { stake: (self.users[u].stake + stake) as u64, ..self.users[u] },
                ),
                ..self
            }
        } else {
            self
        }
    }

    /// The records of a withdrawal by `sender`, if `sender` is registered.
    pub open spec fn withdraw_context(self, sender: Pubkey) -> Option<WithdrawStake> {
        match self.user_index(sender) {
            Some(u) => Some(WithdrawStake { sender, user: self.users[u] }),
            None => None,
        }
    }

    /// The result of a withdrawal by `sender`: the amount withdrawn, or why
    /// not.
    pub open spec fn withdraw_stake_result(self, sender: Pubkey) -> Result<u64, ProgramError> {
        match self.withdraw_context(sender) {
            None => Err(ProgramError::AccountNotInitialized),
            Some(ctx) => ctx.withdraw_result(),
        }
    }

    /// The store after a withdrawal by `sender` was asked for.
    pub open spec fn after_withdraw_stake(self, sender: Pubkey) -> LedgerView {
        if self.withdraw_stake_result(sender) is Ok {
            let u = self.user_index(sender)->0;
            LedgerView {
                users: self.users.update(u, self.withdraw_context(sender)->0.after_withdraw().user),
                ..self
            }
        } else {
            self
        }
    }

    // ----------------------------- Votes ------------------------------- //
    /// The records of a vote of `sender` for the option `option_ix` of the
    /// event `event_id`, if all of them exist.
    pub open spec fn vote_context(self, sender: Pubkey, event_id: u128, option_ix: u8) -> Option<
        Vote,
    > {
        match (
            self.user_index(sender),
            self.event_index(event_id),
            self.option_index(event_id, option_ix),
        ) {
            (Some(u), Some(e), Some(o)) => Some(
                Vote {
                    sender,
                    user: self.users[u],
                    event: self.events[e],
                    option: self.options[o],
                    participation: blank_participation(event_id, sender),
                },
            ),
            _ => None,
        }
    }

    /// The result of a vote of `amount` at the time `now`. Nobody votes
    /// twice on one event.
    pub open spec fn vote_result(
        self,
        sender: Pubkey,
        event_id: u128,
        option_ix: u8,
        amount: u64,
        now: i64,
    ) -> Result<(), ProgramError> {
        match self.vote_context(sender, event_id, option_ix) {
            None => Err(ProgramError::AccountNotInitialized),
            Some(ctx) => if self.participation_index(event_id, sender) is Some {
                Err(ProgramError::AccountAlreadyInUse)
            } else {
                match ctx.refusal(amount, now) {
                    Some(e) => Err(e),
                    None => Ok(()),
                }
            },
        }
    }

    /// The store after a vote of `amount` was asked for at the time `now`.
    pub open spec fn after_vote(
        self,
        sender: Pubkey,
        event_id: u128,
        option_ix: u8,
        amount: u64,
        now: i64,
    ) -> LedgerView {
        if self.vote_result(sender, event_id, option_ix, amount, now) is Ok {
            let voted = self.vote_context(sender, event_id, option_ix)->0.voted(
                event_id,
                option_ix,
                amount,
            );
            LedgerView {
                users: self.users.update(self.user_index(sender)->0, voted.user),
                events: self.events.update(self.event_index(event_id)->0, voted.event),
                options: self.options.update(
                    self.option_index(event_id, option_ix)->0,
                    voted.option,
                ),
                participations: self.participations.push(voted.participation),
                ..self
            }
        } else {
            self
        }
    }
}

// ------------------------- Changes of one table ------------------------ //

/// A new user record with a new key and without locked stake keeps the store
/// well-formed.
pub proof fn lemma_push_user(ledger: LedgerView, user: User)
    requires
        ledger.wf(),
        ledger.user_index(user.payer) is None,
        user.locked_stake == 0,
    ensures
        (LedgerView { users: ledger.users.push(user), ..ledger }).wf(),
{
    let after = LedgerView { users: ledger.users.push(user), ..ledger };
    assert forall|i: int, j: int| 0 <= i < j < after.users.len() implies after.users[i].payer
        != after.users[j].payer by {
        if j == ledger.users.len() {
            assert(!ledger.is_user(i, user.payer));
        }
    }
    assert forall|key: Pubkey| #[trigger]
        recorded_locked(after.users, key) == locked_by_votes(after.participations, key)
            + locked_by_events(after.events, key) by {
        lemma_total_push(ledger.users, user, user_weight(key));
        assert(recorded_locked(ledger.users, key) == locked_by_votes(ledger.participations, key)
            + locked_by_events(ledger.events, key));
    }
}

/// A user record that changes neither its key nor its locked stake keeps the
/// store well-formed.
pub proof fn lemma_update_user(ledger: LedgerView, u: int, user: User)
    requires
        ledger.wf(),
        0 <= u < ledger.users.len(),
        user.payer == ledger.users[u].payer,
        user.locked_stake == ledger.users[u].locked_stake,
    ensures
        (LedgerView { users: ledger.users.update(u, user), ..ledger }).wf(),
{
    let after = LedgerView { users: ledger.users.update(u, user), ..ledger };
    assert forall|i: int, j: int| 0 <= i < j < after.users.len() implies after.users[i].payer
        != after.users[j].payer by {
        assert(ledger.users[i].payer != ledger.users[j].payer);
    }
    assert forall|key: Pubkey| #[trigger]
        recorded_locked(after.users, key) == locked_by_votes(after.participations, key)
            + locked_by_events(after.events, key) by {
        lemma_total_update(ledger.users, u, user, user_weight(key));
        assert(recorded_locked(ledger.users, key) == locked_by_votes(ledger.participations, key)
            + locked_by_events(ledger.events, key));
    }
}

// --------------------- The store stays well-formed --------------------- //

/// Registration keeps the store well-formed.
pub proof fn lemma_create_user_wf(ledger: LedgerView, sender: Pubkey, name: [u8; 32])
    requires
        ledger.wf(),
    ensures
        ledger.after_create_user(sender, name).wf(),
{
    if ledger.create_user_result(sender) is Ok {
        lemma_push_user(ledger, new_user(sender, name));
    }
}

/// A deposit keeps the store well-formed.
pub proof fn lemma_transfer_stake_wf(ledger: LedgerView, sender: Pubkey, stake: u64)
    requires
        ledger.wf(),
    ensures
        ledger.after_transfer_stake(sender, stake).wf(),
{
    if ledger.transfer_stake_result(sender, stake) is Ok {
        let u = ledger.user_index(sender)->0;
        assert(ledger.is_user(u, sender));
        lemma_update_user(
            ledger,
            u,
            User { stake: (ledger.users[u].stake + stake) as u64, ..ledger.users[u] },
        );
    }
}

/// A withdrawal keeps the store well-formed.
pub proof fn lemma_withdraw_stake_wf(ledger: LedgerView, sender: Pubkey)
    requires
        ledger.wf(),
    ensures
        ledger.after_withdraw_stake(sender).wf(),
{
    if ledger.withdraw_stake_result(sender) is Ok {
        let u = ledger.user_index(sender)->0;
        assert(ledger.is_user(u, sender));
        lemma_update_user(ledger, u, ledger.withdraw_context(sender)->0.after_withdraw().user);
    }
}

/// A vote keeps the store well-formed.
pub proof fn lemma_vote_wf(
    ledger: LedgerView,
    sender: Pubkey,
    event_id: u128,
    option_ix: u8,
    amount: u64,
    now: i64,
)
    requires
        ledger.wf(),
    ensures
        ledger.after_vote(sender, event_id, option_ix, amount, now).wf(),
{
    if ledger.vote_result(sender, event_id, option_ix, amount, now) is Ok {
        let after = ledger.after_vote(sender, event_id, option_ix, amount, now);
        let u = ledger.user_index(sender)->0;
        let e = ledger.event_index(event_id)->0;
        let o = ledger.option_index(event_id, option_ix)->0;
        let voted = ledger.vote_context(sender, event_id, option_ix)->0.voted(
            event_id,
            option_ix,
            amount,
        );
        assert(ledger.is_user(u, sender));
        assert(ledger.is_event(e, event_id));
        assert(ledger.is_option(o, event_id, option_ix));
        assert forall|i: int, j: int| 0 <= i < j < after.users.len() implies after.users[i].payer
            != after.users[j].payer by {
            assert(ledger.users[i].payer != ledger.users[j].payer);
        }
        assert forall|i: int, j: int| 0 <= i < j < after.events.len() implies after.events[i].id
            != after.events[j].id by {
            assert(ledger.events[i].id != ledger.events[j].id);
        }
        assert forall|i: int, j: int| 0 <= i < j < after.options.len() implies !(
        after.options[i].event_id == after.options[j].event_id && after.options[i].index
            == after.options[j].index) by {
            assert(!(ledger.options[i].event_id == ledger.options[j].event_id
                && ledger.options[i].index == ledger.options[j].index));
        }
        assert forall|i: int, j: int| 0 <= i < j < after.participations.len() implies !(
        after.participations[i].event_id == after.participations[j].event_id
            && after.participations[i].payer == after.participations[j].payer) by {
            if j == ledger.participations.len() {
                assert(!ledger.is_participation(i, event_id, sender));
            } else {
                assert(!(ledger.participations[i].event_id == ledger.participations[j].event_id
                    && ledger.participations[i].payer == ledger.participations[j].payer));
            }
        }
        assert forall|i: int| 0 <= i < after.events.len() implies (#[trigger] after.events[i]).wf()
            && after.event_metas[i].id == after.events[i].id by {
            assert(ledger.events[i].wf());
        }
        assert forall|key: Pubkey| #[trigger]
            recorded_locked(after.users, key) == locked_by_votes(after.participations, key)
                + locked_by_events(after.events, key) by {
            lemma_total_update(ledger.users, u, voted.user, user_weight(key));
            lemma_total_update(ledger.events, e, voted.event, event_weight(key));
            lemma_total_push(ledger.participations, voted.participation, vote_weight(key));
            assert(recorded_locked(ledger.users, key) == locked_by_votes(
                ledger.participations,
                key,
            ) + locked_by_events(ledger.events, key));
        }
        assert forall|id: u128, index: u8| #[trigger]
            deposited_behind(after.participations, id, index) == recorded_vault(
                after.options,
                id,
                index,
            ) by {
            lemma_total_update(ledger.options, o, voted.option, vault_weight(id, index));
            lemma_total_push(
                ledger.participations,
                voted.participation,
                deposit_weight(id, index),
            );
            assert(deposited_behind(ledger.participations, id, index) == recorded_vault(
                ledger.options,
                id,
                index,
            ));
        }
        assert forall|id: u128| #[trigger]
            deposited_on(after.participations, id) == recorded_pot(after.events, id) by {
            lemma_total_update(ledger.events, e, voted.event, pot_weight(id));
            lemma_total_push(
                ledger.participations,
                voted.participation,
                event_deposit_weight(id),
            );
            assert(deposited_on(ledger.participations, id) == recorded_pot(ledger.events, id));
        }
    }
}

} // verus!
