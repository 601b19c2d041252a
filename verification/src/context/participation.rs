//! Voting, settlement, refunds, disputes and the burning of trust.

use vstd::prelude::*;
use crate::arbitration::{dispute_is_credible, is_dispute_credible};
use crate::context::constants::{dispute_window_end, APPELLATION_DEADLINE, COMPLETION_DEADLINE};
use crate::error::ProgramError;
use crate::pubkey::Pubkey;
use crate::settlement::{
    available_for_winners, burn_amount, burn_amount_of, claim_amount, claim_amount_of,
    org_reward_paid, platform_fee_paid, split_pot, trust_reward, trust_reward_of,
};
use crate::state::appeal::Appellation;
use crate::state::contract_state::State;
use crate::state::event::Event;
use crate::state::option::EventOption;
use crate::state::participation::Participation;
use crate::state::user::User;

verus! {

/// Whether `now` lies strictly after the dispute window of an event that ends
/// at `end_date`.
pub fn dispute_window_elapsed(end_date: i64, now: i64) -> (elapsed: bool)
    ensures
        elapsed == (now > dispute_window_end(end_date)),
{
    now as i128 > end_date as i128 + COMPLETION_DEADLINE as i128 + APPELLATION_DEADLINE as i128
}

// ----------------------------- Settlement ------------------------------ //

/// The records that the settlement of one vote reads and writes.
///
/// `user` and `participation` belong to `sender`, `option` is the option that
/// `participation` chose, and `event_admin` is the record of the event's
/// creator. Where `user` and `event_admin` carry the same key they stand for
/// one and the same record, and `event_admin` holds its value.
#[derive(Clone, Copy, Debug, PartialEq, Eq)]
pub struct ClaimEventReward {
    pub sender: Pubkey,
    /// The account that receives the platform fee.
    pub contract_admin: Pubkey,
    pub user: User,
    pub event_admin: User,
    pub state: State,
    pub event: Event,
    pub option: EventOption,
    pub participation: Participation,
}

/// What a settlement pays out of the event's vault.
#[derive(Clone, Copy, Debug, PartialEq, Eq, Structural)]
pub struct ClaimReceipt {
    /// Paid to the platform.
    pub platform_fee: u64,
    /// Paid to the event's creator: the posted stake and the creator's share.
    pub creator_payout: u64,
    /// Paid to the claimant.
    pub claim_amount: u64,
}

impl ClaimEventReward {
    /// Whether the claimant is the event's creator.
    pub open spec fn same_account(self) -> bool {
        self.user.payer == self.event_admin.payer
    }

    /// Whether the claimant voted for the declared outcome.
    pub open spec fn is_winner(self) -> bool {
        self.event.result == Some(self.participation.option)
    }

    /// What the winners of the event share.
    pub open spec fn available(self) -> nat {
        available_for_winners(
            self.event.total_amount as nat,
            self.state.platform_fee as nat,
            self.state.org_reward as nat,
        )
    }

    /// The platform fee that this settlement pays. It is paid together with
    /// the release of the creator's stake, so once per event at most.
    pub open spec fn platform_payout(self) -> nat {
        if self.event.stake == 0 {
            0
        } else {
            platform_fee_paid(
                self.event.total_amount as nat,
                self.state.platform_fee as nat,
                self.state.org_reward as nat,
            )
        }
    }

    /// What this settlement pays to the event's creator: the stake that is
    /// still posted, and with it the creator's share of the pot.
    pub open spec fn creator_payout(self) -> nat {
        if self.event.stake == 0 {
            0
        } else {
            self.event.stake as nat + org_reward_paid(
                self.event.total_amount as nat,
                self.state.platform_fee as nat,
                self.state.org_reward as nat,
            )
        }
    }

    /// What this settlement pays to the claimant.
    pub open spec fn claim_payout(self) -> nat {
        if self.is_winner() {
            claim_amount_of(
                self.participation.deposited_amount as nat,
                self.option.vault_balance as nat,
                self.available(),
            )
        } else {
            0
        }
    }

    /// The trust that the claimant earns: on the amount won, or on the
    /// deposit lost.
    pub open spec fn trust_earned(self) -> nat {
        trust_reward_of(
            if self.is_winner() {
                self.claim_payout()
            } else {
                self.participation.deposited_amount as nat
            },
            self.state.multiplier as nat,
        )
    }

    /// The creator's free stake once the posted stake is released.
    pub open spec fn released_stake(self) -> int {
        self.event_admin.stake + self.creator_payout()
    }

    /// The creator's locked stake once the posted stake is released.
    pub open spec fn released_locked(self) -> int {
        self.event_admin.locked_stake - self.event.stake
    }

    /// The claimant's free stake after the settlement.
    pub open spec fn settled_stake(self) -> int {
        (if self.same_account() {
            self.released_stake()
        } else {
            self.user.stake as int
        }) + self.claim_payout()
    }

    /// The claimant's locked stake after the settlement.
    pub open spec fn settled_locked(self) -> int {
        (if self.same_account() {
            self.released_locked()
        } else {
            self.user.locked_stake as int
        }) - self.participation.deposited_amount
    }

    /// The claimant's trust level after the settlement.
    pub open spec fn settled_trust(self) -> int {
        (if self.same_account() {
            self.event_admin.trust_lvl
        } else {
            self.user.trust_lvl
        }) + self.trust_earned()
    }

    /// Whether every amount of the settlement stays within its range.
    pub open spec fn in_range(self) -> bool {
        &&& 0 <= self.released_locked()
        &&& self.released_stake() <= u64::MAX
        &&& 0 <= self.settled_locked()
        &&& self.settled_stake() <= u64::MAX
        &&& self.settled_trust() <= u64::MAX
    }

    /// Why the settlement is refused at the time `now`, if it is.
    pub open spec fn refusal(self, now: i64) -> Option<ProgramError> {
        if self.state.authority != self.contract_admin {
            Some(ProgramError::AuthorityMismatch)
        } else if self.user.payer != self.sender || self.participation.payer != self.sender
            || self.event_admin.payer != self.event.authority {
            Some(ProgramError::AuthorityMismatch)
        } else if self.event.result is None {
            Some(ProgramError::EventIsNotOver)
        } else if self.participation.is_claimed {
            Some(ProgramError::AlreadyClaimed)
        } else if self.participation.appealed {
            Some(ProgramError::AlreadyAppealed)
        } else if now <= dispute_window_end(self.event.end_date) {
            Some(ProgramError::EarlyClaim)
        } else if self.option.index != self.participation.option {
            Some(ProgramError::InvalidIndex)
        } else if !self.in_range() {
            Some(ProgramError::ValueOverflow)
        } else {
            None
        }
    }

    /// What an accepted settlement pays out.
    pub open spec fn receipt(self) -> ClaimReceipt {
        ClaimReceipt {
            platform_fee: self.platform_payout() as u64,
            creator_payout: self.creator_payout() as u64,
            claim_amount: self.claim_payout() as u64,
        }
    }

    /// The records after an accepted settlement.
    pub open spec fn settled(self) -> ClaimEventReward {
        let user = User {
            stake: self.settled_stake() as u64,
            locked_stake: self.settled_locked() as u64,
            trust_lvl: self.settled_trust() as u64,
            ..if self.same_account() {
                self.event_admin
            } else {
                self.user
            }
        };
        let event_admin = if self.same_account() {
            user
        } else {
            User {
                stake: self.released_stake() as u64,
                locked_stake: self.released_locked() as u64,
                ..self.event_admin
            }
        };
        ClaimEventReward {
            user,
            event_admin,
            event: Event { stake: 0, ..self.event },
            participation: Participation { is_claimed: true, ..self.participation },
            ..self
        }
    }

    /// The result of a settlement at the time `now`.
    pub open spec fn claim_result(self, now: i64) -> Result<ClaimReceipt, ProgramError> {
        match self.refusal(now) {
            Some(e) => Err(e),
            None => Ok(self.receipt()),
        }
    }

    /// The records after a settlement was asked for at the time `now`.
    pub open spec fn after_claim(self, now: i64) -> ClaimEventReward {
        if self.refusal(now) is None {
            self.settled()
        } else {
            self
        }
    }

    /// Settles the vote of `sender`, strictly after the dispute window.
    ///
    /// A settlement that finds a stake of the creator still posted releases
    /// it to the creator and pays the fees with it, so that this happens
    /// once per event. A winner receives a share of the pot in proportion to
    /// the deposit; a loser receives nothing. Either way the deposit is no
    /// longer locked, trust is earned, and the vote is marked as claimed.
    /// Returns what is to be paid out.
    pub fn claim_event_reward(&mut self, _event_id: u128, now: i64) -> (res: Result<
        ClaimReceipt,
        ProgramError,
    >)
        ensures
            res == old(self).claim_result(now),
            *final(self) == old(self).after_claim(now),
    {
        if !(self.state.authority == self.contract_admin) {
            return Err(ProgramError::AuthorityMismatch);
        }
        if !(self.user.payer == self.sender) || !(self.participation.payer == self.sender)
            || !(self.event_admin.payer == self.event.authority) {
            return Err(ProgramError::AuthorityMismatch);
        }
        let winning: u8 = match self.event.result {
            None => {
                return Err(ProgramError::EventIsNotOver);
            },
            Some(w) => w,
        };
        if self.participation.is_claimed {
            return Err(ProgramError::AlreadyClaimed);
        }
        if self.participation.appealed {
            return Err(ProgramError::AlreadyAppealed);
        }
        if !dispute_window_elapsed(self.event.end_date, now) {
            return Err(ProgramError::EarlyClaim);
        }
        if self.option.index != self.participation.option {
            return Err(ProgramError::InvalidIndex);
        }
        let split = split_pot(
            self.event.total_amount,
            self.state.platform_fee,
            self.state.org_reward,
        );
        let stake: u64 = self.event.stake;
        let deposited: u64 = self.participation.deposited_amount;

        // The release of the creator's stake.
        let mut platform_fee: u64 = 0;
        let mut creator_payout: u64 = 0;
        if stake != 0 {
            platform_fee = split.platform_fee;
            creator_payout = match stake.checked_add(split.org_reward) {
                Some(p) => p,
                None => {
                    return Err(ProgramError::ValueOverflow);
                },
            };
        }
        let released_locked: u64 = match self.event_admin.locked_stake.checked_sub(stake) {
            Some(l) => l,
            None => {
                return Err(ProgramError::ValueOverflow);
            },
        };
        let released_stake: u64 = match self.event_admin.stake.checked_add(creator_payout) {
            Some(s) => s,
            None => {
                return Err(ProgramError::ValueOverflow);
            },
        };
        let mut event_admin: User = self.event_admin;
        event_admin.stake = released_stake;
        event_admin.locked_stake = released_locked;

        // The settlement of the vote.
        let same_account: bool = self.user.payer == self.event_admin.payer;
        let mut user: User = if same_account {
            event_admin
        } else {
            self.user
        };
        let winner: bool = winning == self.participation.option;
        let mut claim: u64 = 0;
        if winner {
            claim = match claim_amount(
                deposited,
                self.option.vault_balance,
                split.available_for_winners,
            ) {
                Some(c) => c,
                None => {
                    return Err(ProgramError::ValueOverflow);
                },
            };
        }
        let involved: u64 = if winner {
            claim
        } else {
            deposited
        };
        let reward: u64 = match trust_reward(involved, self.state.multiplier) {
            Some(r) => r,
            None => {
                return Err(ProgramError::ValueOverflow);
            },
        };
        let settled_stake: u64 = match user.stake.checked_add(claim) {
            Some(s) => s,
            None => {
                return Err(ProgramError::ValueOverflow);
            },
        };
        let settled_locked: u64 = match user.locked_stake.checked_sub(deposited) {
            Some(l) => l,
            None => {
                return Err(ProgramError::ValueOverflow);
            },
        };
        let settled_trust: u64 = match user.trust_lvl.checked_add(reward) {
            Some(t) => t,
            None => {
                return Err(ProgramError::ValueOverflow);
            },
        };
        user.stake = settled_stake;
        user.locked_stake = settled_locked;
        user.trust_lvl = settled_trust;
        if same_account {
            event_admin = user;
        }
        self.user = user;
        self.event_admin = event_admin;
        self.event.stake = 0;
        self.participation.is_claimed = true;
        Ok(ClaimReceipt { platform_fee, creator_payout, claim_amount: claim })
    }
}

// -------------------------------- Vote --------------------------------- //

/// The records that a vote reads and writes.
///
/// `user` belongs to `sender`, and `option` is the chosen option of `event`.
/// `participation` is the record that the vote fills: whatever it held
/// before is overwritten. That nobody votes twice on one event is the
/// business of whoever keeps the records: see
/// [`crate::ledger::store::Ledger::vote`].
#[derive(Clone, Copy, Debug, PartialEq, Eq)]
pub struct Vote {
    pub sender: Pubkey,
    pub user: User,
    pub event: Event,
    pub option: EventOption,
    pub participation: Participation,
}

impl Vote {
    /// Whether every counter stays within its range when `amount` is voted.
    pub open spec fn in_range(self, amount: u64) -> bool {
        &&& self.user.locked_stake + amount <= u64::MAX
        &&& self.event.participation_count + 1 <= u64::MAX
        &&& self.event.total_trust + self.user.trust_lvl <= u64::MAX
        &&& self.event.total_amount + amount <= u64::MAX
        &&& self.option.vault_balance + amount <= u64::MAX
        &&& self.option.votes + 1 <= u64::MAX
    }

    /// Why a vote of `amount` is refused at the time `now`, if it is.
    pub open spec fn refusal(self, amount: u64, now: i64) -> Option<ProgramError> {
        if self.user.payer != self.sender {
            Some(ProgramError::AuthorityMismatch)
        } else if !(self.event.start_date <= now <= self.event.end_date) {
            Some(ProgramError::InactiveEvent)
        } else if self.event.participation_deadline matches Some(deadline) && deadline <= now {
            Some(ProgramError::ParticipationDeadlinePassed)
        } else if self.event.canceled {
            Some(ProgramError::CanceledEvent)
        } else if self.user.stake < amount {
            Some(ProgramError::InsufficientFunds)
        } else if !self.in_range(amount) {
            Some(ProgramError::ValueOverflow)
        } else {
            None
        }
    }

    /// The records after an accepted vote.
    pub open spec fn voted(self, event_id: u128, option_ix: u8, amount: u64) -> Vote {
        Vote {
            user: User {
                stake: (self.user.stake - amount) as u64,
                locked_stake: (self.user.locked_stake + amount) as u64,
                ..self.user
            },
            event: Event {
                participation_count: (self.event.participation_count + 1) as u64,
                total_trust: (self.event.total_trust + self.user.trust_lvl) as u64,
                total_amount: (self.event.total_amount + amount) as u64,
                ..self.event
            },
            option: EventOption {
                vault_balance: (self.option.vault_balance + amount) as u64,
                votes: (self.option.votes + 1) as u64,
                ..self.option
            },
            participation: Participation {
                version: Participation::VERSION,
                event_id,
                payer: self.sender,
                option: option_ix,
                deposited_amount: amount,
                is_claimed: false,
                appealed: false,
            },
            ..self
        }
    }

    /// The records after a vote was asked for at the time `now`.
    pub open spec fn after_vote(
        self,
        event_id: u128,
        option_ix: u8,
        amount: u64,
        now: i64,
    ) -> Vote {
        if self.refusal(amount, now) is None {
            self.voted(event_id, option_ix, amount)
        } else {
            self
        }
    }

    /// Commits `amount` of the free stake of `sender` to the option.
    ///
    /// Votes are accepted from the start date to the end date, both included,
    /// and strictly before the participation deadline where one is set. The
    /// amount moves from the free to the locked stake; the option and the
    /// event count it, and the event adds the voter's present trust level to
    /// its total.
    pub fn vote(&mut self, event_id: u128, option_ix: u8, amount: u64, now: i64) -> (res: Result<
        (),
        ProgramError,
    >)
        ensures
            res == (match old(self).refusal(amount, now) {
                Some(e) => Err(e),
                None => Ok(()),
            }),
            *final(self) == old(self).after_vote(event_id, option_ix, amount, now),
    {
        if !(self.user.payer == self.sender) {
            return Err(ProgramError::AuthorityMismatch);
        }
        if now < self.event.start_date || now > self.event.end_date {
            return Err(ProgramError::InactiveEvent);
        }
        if let Some(deadline) = self.event.participation_deadline {
            if deadline <= now {
                return Err(ProgramError::ParticipationDeadlinePassed);
            }
        }
        if self.event.canceled {
            return Err(ProgramError::CanceledEvent);
        }
        if self.user.stake < amount {
            return Err(ProgramError::InsufficientFunds);
        }
        let locked_stake = self.user.locked_stake.checked_add(amount);
        let participation_count = self.event.participation_count.checked_add(1);
        let total_trust = self.event.total_trust.checked_add(self.user.trust_lvl);
        let total_amount = self.event.total_amount.checked_add(amount);
        let vault_balance = self.option.vault_balance.checked_add(amount);
        let votes = self.option.votes.checked_add(1);
        match (locked_stake, participation_count, total_trust, total_amount, vault_balance, votes) {
            (Some(locked), Some(count), Some(trust), Some(total), Some(vault), Some(votes)) => {
                self.user.stake = self.user.stake - amount;
                self.user.locked_stake = locked;
                self.event.participation_count = count;
                self.event.total_trust = trust;
                self.event.total_amount = total;
                self.option.vault_balance = vault;
                self.option.votes = votes;
                self.participation = Participation {
                    version: Participation::VERSION,
                    event_id,
                    payer: self.sender,
                    option: option_ix,
                    deposited_amount: amount,
                    is_claimed: false,
                    appealed: false,
                };
                Ok(())
            },
            _ => Err(ProgramError::ValueOverflow),
        }
    }
}

// ------------------------------- Refund -------------------------------- //

/// The records that the refund of one vote reads and writes.
///
/// `user` and `participant` belong to `sender`.
#[derive(Clone, Copy, Debug, PartialEq, Eq)]
pub struct Recharge {
    pub sender: Pubkey,
    pub event: Event,
    pub user: User,
    pub participant: Participation,
}

impl Recharge {
    /// Why the refund is refused, if it is.
    pub open spec fn refusal(self) -> Option<ProgramError> {
        if self.user.payer != self.sender || self.participant.payer != self.sender {
            Some(ProgramError::AuthorityMismatch)
        } else if !self.event.canceled {
            Some(ProgramError::EventIsNotCancelled)
        } else if self.participant.is_claimed {
            Some(ProgramError::AlreadyClaimed)
        } else if self.user.locked_stake < self.participant.deposited_amount
            || self.user.stake + self.participant.deposited_amount > u64::MAX {
            Some(ProgramError::ValueOverflow)
        } else {
            None
        }
    }

    /// The records after an accepted refund.
    pub open spec fn recharged(self) -> Recharge {
        Recharge {
            user: User {
                stake: (self.user.stake + self.participant.deposited_amount) as u64,
                locked_stake: (self.user.locked_stake - self.participant.deposited_amount) as u64,
                ..self.user
            },
            participant: Participation { is_claimed: true, ..self.participant },
            ..self
        }
    }

    /// The result of asking for the refund: the amount refunded, or why not.
    pub open spec fn recharge_result(self) -> Result<u64, ProgramError> {
        match self.refusal() {
            Some(e) => Err(e),
            None => Ok(self.participant.deposited_amount),
        }
    }

    /// The records after the refund was asked for.
    pub open spec fn after_recharge(self) -> Recharge {
        if self.refusal() is None {
            self.recharged()
        } else {
            self
        }
    }

    /// Refunds the vote of `sender` on a canceled event: the whole deposit
    /// moves back from the locked to the free stake, once. Returns the amount
    /// to hand back.
    pub fn recharge(&mut self, _event_id: u128) -> (res: Result<u64, ProgramError>)
        ensures
            res == old(self).recharge_result(),
            *final(self) == old(self).after_recharge(),
    {
        if !(self.user.payer == self.sender) || !(self.participant.payer == self.sender) {
            return Err(ProgramError::AuthorityMismatch);
        }
        if !self.event.canceled {
            return Err(ProgramError::EventIsNotCancelled);
        }
        if self.participant.is_claimed {
            return Err(ProgramError::AlreadyClaimed);
        }
        let amount: u64 = self.participant.deposited_amount;
        match (self.user.locked_stake.checked_sub(amount), self.user.stake.checked_add(amount)) {
            (Some(locked), Some(stake)) => {
                self.user.locked_stake = locked;
                self.user.stake = stake;
                self.participant.is_claimed = true;
                Ok(amount)
            },
            _ => Err(ProgramError::ValueOverflow),
        }
    }
}

// ------------------------------- Dispute ------------------------------- //

/// The records that a dispute reads and writes.
///
/// `user` and `participation` belong to `sender`, `option` is the winning
/// option, `appellation` is the dispute record of the event (all zero before
/// the first dispute) and `event_admin` is the record of the event's creator.
/// Where `user` and `event_admin` carry the same key they stand for one and
/// the same record, and `event_admin` holds its value.
#[derive(Clone, Copy, Debug, PartialEq, Eq)]
pub struct AppealResult {
    pub sender: Pubkey,
    /// The account that receives a forfeited stake.
    pub contract_admin: Pubkey,
    pub state: State,
    pub appellation: Appellation,
    pub event: Event,
    pub option: EventOption,
    pub user: User,
    pub event_admin: User,
    pub participation: Participation,
}

impl AppealResult {
    /// Whether the disputer is the event's creator.
    pub open spec fn same_account(self) -> bool {
        self.user.payer == self.event_admin.payer
    }

    /// What was deposited behind the options that lost.
    pub open spec fn losing_pool(self) -> int {
        self.event.total_amount - self.option.vault_balance
    }

    /// The trust level with which the dispute is weighed: that of the
    /// disputer when the dispute is raised.
    pub open spec fn weight(self) -> u64 {
        if self.same_account() {
            self.event_admin.trust_lvl
        } else {
            self.user.trust_lvl
        }
    }

    /// Whether the disputes are credible once this one is counted.
    pub open spec fn credible(self) -> bool {
        dispute_is_credible(
            (self.appellation.disagree_count + 1) as nat,
            (self.appellation.disagree_trust_lvl + self.weight()) as nat,
            (self.appellation.disagree_volume + self.participation.deposited_amount) as nat,
            self.event.participation_count as nat,
            self.event.total_trust as nat,
            self.losing_pool() as nat,
        )
    }

    /// The stake that the creator forfeits with this dispute.
    pub open spec fn forfeited(self) -> u64 {
        if self.credible() {
            self.event.stake
        } else {
            0
        }
    }

    /// Whether every amount of the dispute stays within its range.
    pub open spec fn in_range(self) -> bool {
        &&& self.appellation.disagree_count + 1 <= u64::MAX
        &&& self.appellation.disagree_trust_lvl + self.weight() <= u64::MAX
        &&& self.appellation.disagree_volume + self.participation.deposited_amount <= u64::MAX
        &&& 0 <= self.losing_pool()
        &&& self.forfeited() <= self.event_admin.locked_stake
    }

    /// Why the dispute is refused at the time `now`, if it is.
    pub open spec fn refusal(self, now: i64) -> Option<ProgramError> {
        if self.state.authority != self.contract_admin {
            Some(ProgramError::AuthorityMismatch)
        } else if now <= self.event.end_date {
            Some(ProgramError::ActiveEvent)
        } else if self.user.payer != self.sender || self.participation.payer != self.sender
            || self.event_admin.payer != self.event.authority {
            Some(ProgramError::AuthorityMismatch)
        } else if self.event.result is None {
            Some(ProgramError::EventIsNotOver)
        } else if self.participation.is_claimed {
            Some(ProgramError::AlreadyClaimed)
        } else if self.participation.appealed {
            Some(ProgramError::AlreadyAppealed)
        } else if now > dispute_window_end(self.event.end_date) {
            Some(ProgramError::AppellationDeadlinePassed)
        } else if self.event.result != Some(self.option.index) {
            Some(ProgramError::InvalidIndex)
        } else if !self.in_range() {
            Some(ProgramError::ValueOverflow)
        } else {
            None
        }
    }

    /// The records after an accepted dispute on the event `event_id`.
    pub open spec fn appealed(self, event_id: u128) -> AppealResult {
        let event_admin = User {
            locked_stake: (self.event_admin.locked_stake - self.forfeited()) as u64,
            ..self.event_admin
        };
        AppealResult {
            appellation: Appellation {
                version: Appellation::VERSION,
                event_id,
                disagree_count: (self.appellation.disagree_count + 1) as u64,
                disagree_trust_lvl: (self.appellation.disagree_trust_lvl
                    + self.weight()) as u64,
                disagree_volume: (self.appellation.disagree_volume
                    + self.participation.deposited_amount) as u64,
            },
            event: Event {
                stake: if self.credible() {
                    0
                } else {
                    self.event.stake
                },
                ..self.event
            },
            user: if self.same_account() {
                event_admin
            } else {
                self.user
            },
            event_admin,
            participation: Participation { appealed: true, ..self.participation },
            ..self
        }
    }

    /// The result of a dispute at the time `now`: the stake that the creator
    /// forfeits to the platform, or why the dispute is refused.
    pub open spec fn appeal_result(self, now: i64) -> Result<u64, ProgramError> {
        match self.refusal(now) {
            Some(e) => Err(e),
            None => Ok(self.forfeited()),
        }
    }

    /// The records after a dispute was asked for at the time `now`.
    pub open spec fn after_appeal(self, event_id: u128, now: i64) -> AppealResult {
        if self.refusal(now) is None {
            self.appealed(event_id)
        } else {
            self
        }
    }

    /// Disputes the declared outcome in the name of `sender`, within the
    /// dispute window.
    ///
    /// The dispute is counted with the disputer's trust level and deposit,
    /// and the vote is marked as appealed. If the disputes are credible by
    /// then, the stake that the creator still has posted is forfeited: it
    /// leaves the creator's locked stake and the event for good, and is
    /// returned as the amount owed to the platform.
    pub fn appeal(&mut self, event_id: u128, now: i64) -> (res: Result<u64, ProgramError>)
        ensures
            res == old(self).appeal_result(now),
            *final(self) == old(self).after_appeal(event_id, now),
    {
        if !(self.state.authority == self.contract_admin) {
            return Err(ProgramError::AuthorityMismatch);
        }
        if now <= self.event.end_date {
            return Err(ProgramError::ActiveEvent);
        }
        if !(self.user.payer == self.sender) || !(self.participation.payer == self.sender)
            || !(self.event_admin.payer == self.event.authority) {
            return Err(ProgramError::AuthorityMismatch);
        }
        let winning: u8 = match self.event.result {
            None => {
                return Err(ProgramError::EventIsNotOver);
            },
            Some(w) => w,
        };
        if self.participation.is_claimed {
            return Err(ProgramError::AlreadyClaimed);
        }
        if self.participation.appealed {
            return Err(ProgramError::AlreadyAppealed);
        }
        if dispute_window_elapsed(self.event.end_date, now) {
            return Err(ProgramError::AppellationDeadlinePassed);
        }
        if winning != self.option.index {
            return Err(ProgramError::InvalidIndex);
        }
        let same_account: bool = self.user.payer == self.event_admin.payer;
        let weight: u64 = if same_account {
            self.event_admin.trust_lvl
        } else {
            self.user.trust_lvl
        };
        let count = self.appellation.disagree_count.checked_add(1);
        let trust = self.appellation.disagree_trust_lvl.checked_add(weight);
        let volume = self.appellation.disagree_volume.checked_add(
            self.participation.deposited_amount,
        );
        let pool = self.event.total_amount.checked_sub(self.option.vault_balance);
        match (count, trust, volume, pool) {
            (Some(count), Some(trust), Some(volume), Some(pool)) => {
                let credible: bool = is_dispute_credible(
                    count,
                    trust,
                    volume,
                    self.event.participation_count,
                    self.event.total_trust,
                    pool,
                );
                let forfeited: u64 = if credible {
                    self.event.stake
                } else {
                    0
                };
                let locked: u64 = match self.event_admin.locked_stake.checked_sub(forfeited) {
                    Some(l) => l,
                    None => {
                        return Err(ProgramError::ValueOverflow);
                    },
                };
                self.appellation = Appellation {
                    version: Appellation::VERSION,
                    event_id,
                    disagree_count: count,
                    disagree_trust_lvl: trust,
                    disagree_volume: volume,
                };
                self.event_admin.locked_stake = locked;
                if same_account {
                    self.user = self.event_admin;
                }
                if credible {
                    self.event.stake = 0;
                }
                self.participation.appealed = true;
                Ok(forfeited)
            },
            _ => Err(ProgramError::ValueOverflow),
        }
    }
}

// ---------------------------- Burning trust ---------------------------- //

/// The records that the burning of trust reads and writes.
///
/// `user` and `participation` belong to `sender`, and `option` is the option
/// that `participation` chose.
#[derive(Clone, Copy, Debug, PartialEq, Eq)]
pub struct BurnTrust {
    pub sender: Pubkey,
    pub state: State,
    pub event: Event,
    pub option: EventOption,
    pub user: User,
    pub participation: Participation,
}

impl BurnTrust {
    /// The collateral that burning `trust_amount` unlocks.
    pub open spec fn unlocked(self, trust_amount: u64) -> nat {
        burn_amount_of(
            trust_amount as nat,
            self.state.multiplier as nat,
            self.participation.deposited_amount as nat,
        )
    }

    /// Whether every amount stays within its range when `trust_amount` is
    /// burned.
    pub open spec fn in_range(self, trust_amount: u64) -> bool {
        &&& self.state.multiplier != 0
        &&& self.unlocked(trust_amount) <= self.user.locked_stake
        &&& self.user.stake + self.unlocked(trust_amount) <= u64::MAX
        &&& self.unlocked(trust_amount) <= self.option.vault_balance
        &&& self.unlocked(trust_amount) <= self.event.total_amount
    }

    /// Why the burning of `trust_amount` is refused at the time `now`, if it
    /// is.
    pub open spec fn refusal(self, trust_amount: u64, now: i64) -> Option<ProgramError> {
        if self.user.payer != self.sender || self.participation.payer != self.sender {
            Some(ProgramError::AuthorityMismatch)
        } else if self.participation.is_claimed {
            Some(ProgramError::AlreadyClaimed)
        } else if self.participation.appealed {
            Some(ProgramError::AlreadyAppealed)
        } else if now > dispute_window_end(self.event.end_date) {
            Some(ProgramError::AppellationDeadlinePassed)
        } else if self.option.index != self.participation.option {
            Some(ProgramError::InvalidIndex)
        } else if self.user.trust_lvl < trust_amount {
            Some(ProgramError::NotEnoughTrust)
        } else if !self.in_range(trust_amount) {
            Some(ProgramError::ValueOverflow)
        } else {
            None
        }
    }

    /// The records after `trust_amount` was burned.
    pub open spec fn burned(self, trust_amount: u64) -> BurnTrust {
        let amount = self.unlocked(trust_amount);
        BurnTrust {
            event: Event { total_amount: (self.event.total_amount - amount) as u64, ..self.event },
            option: EventOption {
                vault_balance: (self.option.vault_balance - amount) as u64,
                ..self.option
            },
            user: User {
                stake: (self.user.stake + amount) as u64,
                locked_stake: (self.user.locked_stake - amount) as u64,
                trust_lvl: (self.user.trust_lvl - trust_amount) as u64,
                ..self.user
            },
            participation: Participation {
                deposited_amount: (self.participation.deposited_amount - amount) as u64,
                ..self.participation
            },
            ..self
        }
    }

    /// The result of burning `trust_amount` at the time `now`: the collateral
    /// unlocked, or why the burning is refused.
    pub open spec fn burn_result(self, trust_amount: u64, now: i64) -> Result<u64, ProgramError> {
        match self.refusal(trust_amount, now) {
            Some(e) => Err(e),
            None => Ok(self.unlocked(trust_amount) as u64),
        }
    }

    /// The records after the burning of `trust_amount` was asked for at the
    /// time `now`.
    pub open spec fn after_burn(self, trust_amount: u64, now: i64) -> BurnTrust {
        if self.refusal(trust_amount, now) is None {
            self.burned(trust_amount)
        } else {
            self
        }
    }

    /// Gives up `trust_amount` of the trust of `sender` to unlock collateral
    /// of an unsettled, undisputed vote before the dispute window closes.
    ///
    /// The trust is worth one whole unit of collateral per `multiplier`,
    /// rounded down, and no more than the deposit. What is unlocked moves
    /// from the locked to the free stake and leaves the deposit, and with it
    /// the vault of the option and the pot of the event, so that the pot
    /// remains the sum of the deposits. Returns the amount to hand back.
    pub fn burn_trust(&mut self, _event_id: u128, trust_amount: u64, now: i64) -> (res: Result<
        u64,
        ProgramError,
    >)
        ensures
            res == old(self).burn_result(trust_amount, now),
            *final(self) == old(self).after_burn(trust_amount, now),
    {
        if !(self.user.payer == self.sender) || !(self.participation.payer == self.sender) {
            return Err(ProgramError::AuthorityMismatch);
        }
        if self.participation.is_claimed {
            return Err(ProgramError::AlreadyClaimed);
        }
        if self.participation.appealed {
            return Err(ProgramError::AlreadyAppealed);
        }
        if dispute_window_elapsed(self.event.end_date, now) {
            return Err(ProgramError::AppellationDeadlinePassed);
        }
        if self.option.index != self.participation.option {
            return Err(ProgramError::InvalidIndex);
        }
        if self.user.trust_lvl < trust_amount {
            return Err(ProgramError::NotEnoughTrust);
        }
        let amount: u64 = match burn_amount(
            trust_amount,
            self.state.multiplier,
            self.participation.deposited_amount,
        ) {
            Some(a) => a,
            None => {
                return Err(ProgramError::ValueOverflow);
            },
        };
        let locked_stake = self.user.locked_stake.checked_sub(amount);
        let stake = self.user.stake.checked_add(amount);
        let vault_balance = self.option.vault_balance.checked_sub(amount);
        let total_amount = self.event.total_amount.checked_sub(amount);
        match (locked_stake, stake, vault_balance, total_amount) {
            (Some(locked), Some(stake), Some(vault), Some(total)) => {
                self.user.locked_stake = locked;
                self.user.stake = stake;
                self.user.trust_lvl = self.user.trust_lvl - trust_amount;
                self.participation.deposited_amount = self.participation.deposited_amount - amount;
                self.option.vault_balance = vault;
                self.event.total_amount = total;
                Ok(amount)
            },
            _ => Err(ProgramError::ValueOverflow),
        }
    }
}

} // verus!
