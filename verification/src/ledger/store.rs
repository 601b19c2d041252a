//! The store itself.

use vstd::prelude::*;
use crate::context::contract_state::{InitializeContractState, UpdateContractState};
use crate::context::event::{
    CancelEvent, CompleteEvent, CreateEvent, CreateEventArgs, UpdateEvent,
};
use crate::context::option::{CreateEventOption, UpdateEventOption};
use crate::context::participation::{
    AppealResult, BurnTrust, ClaimEventReward, ClaimReceipt, Recharge, Vote,
};
use crate::context::user::{CreateUser, TransferStake, WithdrawStake};
use crate::error::ProgramError;
use crate::ledger::lifecycle::{
    lemma_create_event_option_wf, lemma_create_event_wf, lemma_update_event_option_wf,
    lemma_with_event_meta_wf, lemma_with_event_wf,
};
use crate::ledger::settling::{
    lemma_appeal_wf, lemma_burn_trust_wf, lemma_claim_event_reward_wf, lemma_recharge_wf,
};
use crate::ledger::staking::{
    lemma_create_user_wf, lemma_transfer_stake_wf, lemma_vote_wf, lemma_withdraw_stake_wf,
};
use crate::ledger::view::LedgerView;
use crate::pubkey::Pubkey;
use crate::state::appeal::Appellation;
use crate::state::contract_state::State;
use crate::state::event::{Event, EventMeta};
use crate::state::option::EventOption;
use crate::state::participation::Participation;
use crate::state::user::User;

verus! {

/// All records of a ledger, each found by its key.
///
/// Every operation looks up the records that it needs, is refused with
/// [`ProgramError::AccountNotInitialized`] if one is missing and with
/// [`ProgramError::AccountAlreadyInUse`] if a record that it would create
/// exists already, and otherwise does to them what the operation on those
/// records does. A refused operation leaves the store as it is.
pub struct Ledger {
    state: Option<State>,
    users: Vec<User>,
    events: Vec<Event>,
    event_metas: Vec<EventMeta>,
    options: Vec<EventOption>,
    participations: Vec<Participation>,
    appellations: Vec<Appellation>,
}

impl View for Ledger {
    type V = LedgerView;

    closed spec fn view(&self) -> LedgerView {
        LedgerView {
            state: self.state,
            users: self.users@,
            events: self.events@,
            event_metas: self.event_metas@,
            options: self.options@,
            participations: self.participations@,
            appellations: self.appellations@,
        }
    }
}

impl Ledger {
    /// A store without any record.
    pub fn new() -> (ledger: Ledger)
        ensures
            ledger@ == LedgerView::empty(),
            ledger@.wf(),
    {
        let ledger = Ledger {
            state: None,
            users: Vec::new(),
            events: Vec::new(),
            event_metas: Vec::new(),
            options: Vec::new(),
            participations: Vec::new(),
            appellations: Vec::new(),
        };
        assert(ledger@ =~= LedgerView::empty());
        ledger
    }

    // ----------------------------- Lookups ----------------------------- //
    fn find_user(&self, key: &Pubkey) -> (found: Option<usize>)
        requires
            self@.keys_unique(),
        ensures
            found matches Some(i) ==> self@.user_index(*key) == Some(i as int) && self@.is_user(
                i as int,
                *key,
            ),
            found is None ==> self@.user_index(*key) is None,
    {
        let mut i: usize = 0;
        while i < self.users.len()
            invariant
                self@.keys_unique(),
                i <= self.users.len(),
                forall|j: int| 0 <= j < i ==> !self@.is_user(j, *key),
            decreases self.users.len() - i,
        {
            if self.users[i].payer == *key {
                proof {
                    self@.lemma_user_index(i as int, *key);
                }
                return Some(i);
            }
            i += 1;
        }
        None
    }

    fn find_event(&self, id: u128) -> (found: Option<usize>)
        requires
            self@.keys_unique(),
        ensures
            found matches Some(i) ==> self@.event_index(id) == Some(i as int) && self@.is_event(
                i as int,
                id,
            ),
            found is None ==> self@.event_index(id) is None,
    {
        let mut i: usize = 0;
        while i < self.events.len()
            invariant
                self@.keys_unique(),
                i <= self.events.len(),
                forall|j: int| 0 <= j < i ==> !self@.is_event(j, id),
            decreases self.events.len() - i,
        {
            if self.events[i].id == id {
                proof {
                    self@.lemma_event_index(i as int, id);
                }
                return Some(i);
            }
            i += 1;
        }
        None
    }

    fn find_option(&self, event_id: u128, index: u8) -> (found: Option<usize>)
        requires
            self@.keys_unique(),
        ensures
            found matches Some(i) ==> self@.option_index(event_id, index) == Some(i as int)
                && self@.is_option(i as int, event_id, index),
            found is None ==> self@.option_index(event_id, index) is None,
    {
        let mut i: usize = 0;
        while i < self.options.len()
            invariant
                self@.keys_unique(),
                i <= self.options.len(),
                forall|j: int| 0 <= j < i ==> !self@.is_option(j, event_id, index),
            decreases self.options.len() - i,
        {
            if self.options[i].event_id == event_id && self.options[i].index == index {
                proof {
                    self@.lemma_option_index(i as int, event_id, index);
                }
                return Some(i);
            }
            i += 1;
        }
        None
    }

    fn find_participation(&self, event_id: u128, payer: &Pubkey) -> (found: Option<usize>)
        requires
            self@.keys_unique(),
        ensures
            found matches Some(i) ==> self@.participation_index(event_id, *payer) == Some(
                i as int,
            ) && self@.is_participation(i as int, event_id, *payer),
            found is None ==> self@.participation_index(event_id, *payer) is None,
    {
        let mut i: usize = 0;
        while i < self.participations.len()
            invariant
                self@.keys_unique(),
                i <= self.participations.len(),
                forall|j: int| 0 <= j < i ==> !self@.is_participation(j, event_id, *payer),
            decreases self.participations.len() - i,
        {
            if self.participations[i].event_id == event_id && self.participations[i].payer
                == *payer {
                proof {
                    self@.lemma_participation_index(i as int, event_id, *payer);
                }
                return Some(i);
            }
            i += 1;
        }
        None
    }

    fn find_appellation(&self, event_id: u128) -> (found: Option<usize>)
        requires
            self@.keys_unique(),
        ensures
            found matches Some(i) ==> self@.appellation_index(event_id) == Some(i as int)
                && self@.is_appellation(i as int, event_id),
            found is None ==> self@.appellation_index(event_id) is None,
    {
        let mut i: usize = 0;
        while i < self.appellations.len()
            invariant
                self@.keys_unique(),
                i <= self.appellations.len(),
                forall|j: int| 0 <= j < i ==> !self@.is_appellation(j, event_id),
            decreases self.appellations.len() - i,
        {
            if self.appellations[i].event_id == event_id {
                proof {
                    self@.lemma_appellation_index(i as int, event_id);
                }
                return Some(i);
            }
            i += 1;
        }
        None
    }

    /// The configuration, once it is set.
    pub fn state(&self) -> (found: Option<State>)
        ensures
            found == self@.state,
    {
        self.state
    }

    /// The user record of `key`, if there is one.
    pub fn user(&self, key: &Pubkey) -> (found: Option<User>)
        requires
            self@.wf(),
        ensures
            found == self@.user(*key),
    {
        match self.find_user(key) {
            Some(i) => Some(self.users[i]),
            None => None,
        }
    }

    /// The event `id`, if it exists.
    pub fn event(&self, id: u128) -> (found: Option<Event>)
        requires
            self@.wf(),
        ensures
            found == self@.event(id),
    {
        match self.find_event(id) {
            Some(i) => Some(self.events[i]),
            None => None,
        }
    }

    /// The descriptive data of the event `id`, if it exists.
    pub fn event_meta(&self, id: u128) -> (found: Option<EventMeta>)
        requires
            self@.wf(),
        ensures
            found == self@.event_meta(id),
    {
        match self.find_event(id) {
            Some(i) => Some(self.event_metas[i]),
            None => None,
        }
    }

    /// The option `index` of the event `event_id`, if it exists.
    pub fn option(&self, event_id: u128, index: u8) -> (found: Option<EventOption>)
        requires
            self@.wf(),
        ensures
            found == self@.option(event_id, index),
    {
        match self.find_option(event_id, index) {
            Some(i) => Some(self.options[i]),
            None => None,
        }
    }

    /// The vote of `payer` on the event `event_id`, if there is one.
    pub fn participation(&self, event_id: u128, payer: &Pubkey) -> (found: Option<Participation>)
        requires
            self@.wf(),
        ensures
            found == self@.participation(event_id, *payer),
    {
        match self.find_participation(event_id, payer) {
            Some(i) => Some(self.participations[i]),
            None => None,
        }
    }

    /// The dispute record of the event `event_id`, if there is one.
    pub fn appellation(&self, event_id: u128) -> (found: Option<Appellation>)
        requires
            self@.wf(),
        ensures
            found == self@.appellation(event_id),
    {
        match self.find_appellation(event_id) {
            Some(i) => Some(self.appellations[i]),
            None => None,
        }
    }

    // ------------------------------ Users ------------------------------ //
    /// Registers `sender` as `name`, once.
    pub fn create_user(&mut self, sender: Pubkey, name: [u8; 32]) -> (res: Result<
        (),
        ProgramError,
    >)
        requires
            old(self)@.wf(),
        ensures
            final(self)@.wf(),
            res == old(self)@.create_user_result(sender),
            final(self)@ == old(self)@.after_create_user(sender, name),
    {
        proof {
            lemma_create_user_wf(self@, sender, name);
        }
        if self.find_user(&sender).is_some() {
            return Err(ProgramError::AccountAlreadyInUse);
        }
        let mut ctx = CreateUser {
            sender,
            user: User {
                version: 0,
                payer: sender,
                stake: 0,
                locked_stake: 0,
                trust_lvl: 0,
                name: [0u8; 32],
            },
        };
        match ctx.create_user(name) {
            Err(e) => Err(e),
            Ok(()) => {
                self.users.push(ctx.user);
                Ok(())
            },
        }
    }

    /// Adds `stake` to the free stake of `sender`.
    pub fn transfer_stake(&mut self, sender: Pubkey, stake: u64) -> (res: Result<
        (),
        ProgramError,
    >)
        requires
            old(self)@.wf(),
        ensures
            final(self)@.wf(),
            res == old(self)@.transfer_stake_result(sender, stake),
            final(self)@ == old(self)@.after_transfer_stake(sender, stake),
    {
        proof {
            lemma_transfer_stake_wf(self@, sender, stake);
        }
        let u: usize = match self.find_user(&sender) {
            Some(u) => u,
            None => {
                return Err(ProgramError::AccountNotInitialized);
            },
        };
        let mut ctx = TransferStake { sender, user: self.users[u] };
        match ctx.transfer_stake(stake) {
            Err(e) => Err(e),
            Ok(()) => {
                self.users[u] = ctx.user;
                Ok(())
            },
        }
    }

    /// Withdraws the stake of `sender` beyond the locked stake, and returns
    /// the amount to hand out.
    pub fn withdraw_stake(&mut self, sender: Pubkey) -> (res: Result<u64, ProgramError>)
        requires
            old(self)@.wf(),
        ensures
            final(self)@.wf(),
            res == old(self)@.withdraw_stake_result(sender),
            final(self)@ == old(self)@.after_withdraw_stake(sender),
    {
        proof {
            lemma_withdraw_stake_wf(self@, sender);
        }
        let u: usize = match self.find_user(&sender) {
            Some(u) => u,
            None => {
                return Err(ProgramError::AccountNotInitialized);
            },
        };
        let mut ctx = WithdrawStake { sender, user: self.users[u] };
        match ctx.withdraw() {
            Err(e) => Err(e),
            Ok(amount) => {
                self.users[u] = ctx.user;
                Ok(amount)
            },
        }
    }

    // -------------------------- Configuration -------------------------- //
    /// Configures the ledger, once, in the name of `sender`, who must be
    /// `upgrade_authority`: who may upgrade the ledger.
    pub fn initialize_contract_state(
        &mut self,
        sender: Pubkey,
        upgrade_authority: Option<Pubkey>,
        authority: Pubkey,
        multiplier: u64,
        event_price: u64,
        platform_fee: u64,
        org_reward: u64,
    ) -> (res: Result<(), ProgramError>)
        requires
            old(self)@.wf(),
        ensures
            final(self)@.wf(),
            res == old(self)@.initialize_contract_state_result(sender, upgrade_authority),
            final(self)@ == old(self)@.configured(
                res,
                State {
                    version: State::VERSION,
                    authority,
                    multiplier,
                    event_price,
                    platform_fee,
                    org_reward,
                },
            ),
    {
        if self.state.is_some() {
            return Err(ProgramError::AccountAlreadyInUse);
        }
        let mut ctx = InitializeContractState {
            authority: sender,
            state: State {
                version: 0,
                authority: sender,
                multiplier: 0,
                event_price: 0,
                platform_fee: 0,
                org_reward: 0,
            },
            upgrade_authority,
        };
        match ctx.initialize_contract_state(
            authority,
            multiplier,
            event_price,
            platform_fee,
            org_reward,
        ) {
            Err(e) => Err(e),
            Ok(()) => {
                self.state = Some(ctx.state);
                Ok(())
            },
        }
    }

    /// Hands the configuration over to `authority`, in the name of `sender`.
    pub fn set_contract_authority(&mut self, sender: Pubkey, authority: Pubkey) -> (res: Result<
        (),
        ProgramError,
    >)
        requires
            old(self)@.wf(),
        ensures
            final(self)@.wf(),
            res == old(self)@.update_contract_state_result(sender),
            final(self)@ == old(self)@.configured(
                res,
                State { authority, ..old(self)@.state->0 },
            ),
    {
        let state: State = match self.state {
            Some(s) => s,
            None => {
                return Err(ProgramError::AccountNotInitialized);
            },
        };
        let mut ctx = UpdateContractState { authority: sender, state };
        match ctx.set_authority(authority) {
            Err(e) => Err(e),
            Ok(()) => {
                self.state = Some(ctx.state);
                Ok(())
            },
        }
    }

    /// Sets the trust earned per whole unit of collateral, in the name of
    /// `sender`.
    pub fn set_contract_multiplier(&mut self, sender: Pubkey, multiplier: u64) -> (res: Result<
        (),
        ProgramError,
    >)
        requires
            old(self)@.wf(),
        ensures
            final(self)@.wf(),
            res == old(self)@.update_contract_state_result(sender),
            final(self)@ == old(self)@.configured(
                res,
                State { multiplier, ..old(self)@.state->0 },
            ),
    {
        let state: State = match self.state {
            Some(s) => s,
            None => {
                return Err(ProgramError::AccountNotInitialized);
            },
        };
        let mut ctx = UpdateContractState { authority: sender, state };
        match ctx.set_multiplier(multiplier) {
            Err(e) => Err(e),
            Ok(()) => {
                self.state = Some(ctx.state);
                Ok(())
            },
        }
    }

    /// Sets the price of creating an event, in the name of `sender`.
    pub fn set_event_price(&mut self, sender: Pubkey, event_price: u64) -> (res: Result<
        (),
        ProgramError,
    >)
        requires
            old(self)@.wf(),
        ensures
            final(self)@.wf(),
            res == old(self)@.update_contract_state_result(sender),
            final(self)@ == old(self)@.configured(
                res,
                State { event_price, ..old(self)@.state->0 },
            ),
    {
        let state: State = match self.state {
            Some(s) => s,
            None => {
                return Err(ProgramError::AccountNotInitialized);
            },
        };
        let mut ctx = UpdateContractState { authority: sender, state };
        match ctx.set_price(event_price) {
            Err(e) => Err(e),
            Ok(()) => {
                self.state = Some(ctx.state);
                Ok(())
            },
        }
    }

    // ------------------------------ Events ----------------------------- //
    /// Creates the event `event_id` in the name of `sender`, once.
    pub fn create_event(&mut self, sender: Pubkey, event_id: u128, args: CreateEventArgs) -> (res:
        Result<(), ProgramError>)
        requires
            old(self)@.wf(),
        ensures
            final(self)@.wf(),
            res == old(self)@.create_event_result(event_id, args),
            final(self)@ == old(self)@.after_create_event(sender, event_id, args),
    {
        proof {
            lemma_create_event_wf(self@, sender, event_id, args);
        }
        if self.find_event(event_id).is_some() {
            return Err(ProgramError::AccountAlreadyInUse);
        }
        let mut ctx = CreateEvent {
            authority: sender,
            event: Event {
                version: 0,
                id: event_id,
                authority: sender,
                stake: 0,
                start_date: 0,
                end_date: 0,
                participation_deadline: None,
                option_count: 0,
                canceled: false,
                total_amount: 0,
                total_trust: 0,
                participation_count: 0,
                result: None,
            },
            event_meta: EventMeta {
                version: 0,
                id: event_id,
                is_private: false,
                name: [0u8; 32],
                description: [0u8; 256],
            },
        };
        match ctx.create_event(event_id, args) {
            Err(e) => Err(e),
            Ok(()) => {
                self.events.push(ctx.event);
                self.event_metas.push(ctx.event_meta);
                Ok(())
            },
        }
    }

    /// Renames the event `event_id`, in the name of `sender`.
    pub fn update_event_name(
        &mut self,
        sender: Pubkey,
        event_id: u128,
        name: [u8; 32],
        now: i64,
    ) -> (res: Result<(), ProgramError>)
        requires
            old(self)@.wf(),
        ensures
            final(self)@.wf(),
            res == old(self)@.update_event_meta_result(sender, event_id, now),
            final(self)@ == old(self)@.with_event_meta(
                res,
                event_id,
                EventMeta { name, ..old(self)@.event_meta(event_id)->0 },
            ),
    {
        let e: usize = match self.find_event(event_id) {
            Some(e) => e,
            None => {
                return Err(ProgramError::AccountNotInitialized);
            },
        };
        let mut ctx = UpdateEvent {
            authority: sender,
            event: self.events[e],
            event_meta: self.event_metas[e],
        };
        let res = ctx.update_event_name(event_id, name, now);
        proof {
            lemma_with_event_meta_wf(self@, res, event_id, ctx.event_meta);
        }
        match res {
            Err(e) => Err(e),
            Ok(()) => {
                self.event_metas[e] = ctx.event_meta;
                Ok(())
            },
        }
    }

    /// Replaces the description of the event `event_id`, in the name of
    /// `sender`.
    pub fn update_event_description(
        &mut self,
        sender: Pubkey,
        event_id: u128,
        description: [u8; 256],
        now: i64,
    ) -> (res: Result<(), ProgramError>)
        requires
            old(self)@.wf(),
        ensures
            final(self)@.wf(),
            res == old(self)@.update_event_meta_result(sender, event_id, now),
            final(self)@ == old(self)@.with_event_meta(
                res,
                event_id,
                EventMeta { description, ..old(self)@.event_meta(event_id)->0 },
            ),
    {
        let e: usize = match self.find_event(event_id) {
            Some(e) => e,
            None => {
                return Err(ProgramError::AccountNotInitialized);
            },
        };
        let mut ctx = UpdateEvent {
            authority: sender,
            event: self.events[e],
            event_meta: self.event_metas[e],
        };
        let res = ctx.update_event_description(event_id, description, now);
        proof {
            lemma_with_event_meta_wf(self@, res, event_id, ctx.event_meta);
        }
        match res {
            Err(e) => Err(e),
            Ok(()) => {
                self.event_metas[e] = ctx.event_meta;
                Ok(())
            },
        }
    }

    /// Moves the end date of the event `event_id`, in the name of `sender`.
    pub fn update_event_end_date(
        &mut self,
        sender: Pubkey,
        event_id: u128,
        end_date: i64,
        now: i64,
    ) -> (res: Result<(), ProgramError>)
        requires
            old(self)@.wf(),
        ensures
            final(self)@.wf(),
            res == old(self)@.update_event_end_date_result(sender, event_id, end_date, now),
            final(self)@ == old(self)@.with_event(
                res,
                event_id,
                Event { end_date, ..old(self)@.event(event_id)->0 },
            ),
    {
        let e: usize = match self.find_event(event_id) {
            Some(e) => e,
            None => {
                return Err(ProgramError::AccountNotInitialized);
            },
        };
        let mut ctx = UpdateEvent {
            authority: sender,
            event: self.events[e],
            event_meta: self.event_metas[e],
        };
        let res = ctx.update_event_end_date(event_id, end_date, now);
        proof {
            lemma_with_event_wf(self@, res, event_id, ctx.event);
        }
        match res {
            Err(e) => Err(e),
            Ok(()) => {
                self.events[e] = ctx.event;
                Ok(())
            },
        }
    }

    /// Sets or clears the participation deadline of the event `event_id`,
    /// in the name of `sender`.
    pub fn update_event_participation_deadline(
        &mut self,
        sender: Pubkey,
        event_id: u128,
        deadline: Option<i64>,
        now: i64,
    ) -> (res: Result<(), ProgramError>)
        requires
            old(self)@.wf(),
        ensures
            final(self)@.wf(),
            res == old(self)@.update_event_participation_deadline_result(
                sender,
                event_id,
                deadline,
                now,
            ),
            final(self)@ == old(self)@.with_event(
                res,
                event_id,
                Event { participation_deadline: deadline, ..old(self)@.event(event_id)->0 },
            ),
    {
        let e: usize = match self.find_event(event_id) {
            Some(e) => e,
            None => {
                return Err(ProgramError::AccountNotInitialized);
            },
        };
        let mut ctx = UpdateEvent {
            authority: sender,
            event: self.events[e],
            event_meta: self.event_metas[e],
        };
        let res = ctx.update_event_participation_deadline(event_id, deadline, now);
        proof {
            lemma_with_event_wf(self@, res, event_id, ctx.event);
        }
        match res {
            Err(e) => Err(e),
            Ok(()) => {
                self.events[e] = ctx.event;
                Ok(())
            },
        }
    }

    /// Cancels the event `event_id`, in the name of `sender`.
    pub fn cancel_event(&mut self, sender: Pubkey, event_id: u128, now: i64) -> (res: Result<
        (),
        ProgramError,
    >)
        requires
            old(self)@.wf(),
        ensures
            final(self)@.wf(),
            res == old(self)@.cancel_event_result(sender, event_id, now),
            final(self)@ == old(self)@.with_event(
                res,
                event_id,
                Event { canceled: true, ..old(self)@.event(event_id)->0 },
            ),
    {
        let e: usize = match self.find_event(event_id) {
            Some(e) => e,
            None => {
                return Err(ProgramError::AccountNotInitialized);
            },
        };
        let mut ctx = CancelEvent { sender, event: self.events[e] };
        let res = ctx.cancel_event(event_id, now);
        proof {
            assert(self@.events[e as int].wf());
            lemma_with_event_wf(self@, res, event_id, ctx.event);
        }
        match res {
            Err(e) => Err(e),
            Ok(()) => {
                self.events[e] = ctx.event;
                Ok(())
            },
        }
    }

    /// Declares the option `result` the outcome of the event `event_id`, in
    /// the name of `sender`.
    pub fn complete_event(&mut self, sender: Pubkey, event_id: u128, result: u8, now: i64) -> (res:
        Result<(), ProgramError>)
        requires
            old(self)@.wf(),
        ensures
            final(self)@.wf(),
            res == old(self)@.complete_event_result(sender, event_id, result, now),
            final(self)@ == old(self)@.with_event(
                res,
                event_id,
                Event { result: Some(result), ..old(self)@.event(event_id)->0 },
            ),
    {
        let e: usize = match self.find_event(event_id) {
            Some(e) => e,
            None => {
                return Err(ProgramError::AccountNotInitialized);
            },
        };
        let mut ctx = CompleteEvent { authority: sender, event: self.events[e] };
        let res = ctx.complete_event(event_id, result, now);
        proof {
            assert(self@.events[e as int].wf());
            lemma_with_event_wf(self@, res, event_id, ctx.event);
        }
        match res {
            Err(e) => Err(e),
            Ok(()) => {
                self.events[e] = ctx.event;
                Ok(())
            },
        }
    }

    // ----------------------------- Options ----------------------------- //
    /// Adds the option `index` to the event `event_id`, in the name of
    /// `sender`.
    pub fn create_event_option(
        &mut self,
        sender: Pubkey,
        event_id: u128,
        index: u8,
        description: [u8; 256],
        now: i64,
    ) -> (res: Result<(), ProgramError>)
        requires
            old(self)@.wf(),
        ensures
            final(self)@.wf(),
            res == old(self)@.create_event_option_result(sender, event_id, index, now),
            final(self)@ == old(self)@.after_create_event_option(
                sender,
                event_id,
                index,
                description,
                now,
            ),
    {
        proof {
            lemma_create_event_option_wf(self@, sender, event_id, index, description, now);
        }
        let e: usize = match self.find_event(event_id) {
            Some(e) => e,
            None => {
                return Err(ProgramError::AccountNotInitialized);
            },
        };
        if self.find_option(event_id, index).is_some() {
            return Err(ProgramError::AccountAlreadyInUse);
        }
        let mut ctx = CreateEventOption {
            authority: sender,
            option: EventOption {
                version: 0,
                index,
                event_id,
                description: [0u8; 256],
                votes: 0,
                vault_balance: 0,
            },
            event: self.events[e],
        };
        match ctx.create_event_option(index, event_id, description, now) {
            Err(e) => Err(e),
            Ok(()) => {
                self.events[e] = ctx.event;
                self.options.push(ctx.option);
                Ok(())
            },
        }
    }

    /// Replaces the description of the option `index` of the event
    /// `event_id`, in the name of `sender`.
    pub fn update_event_option(
        &mut self,
        sender: Pubkey,
        event_id: u128,
        index: u8,
        description: [u8; 256],
        now: i64,
    ) -> (res: Result<(), ProgramError>)
        requires
            old(self)@.wf(),
        ensures
            final(self)@.wf(),
            res == old(self)@.update_event_option_result(sender, event_id, index, now),
            final(self)@ == old(self)@.after_update_event_option(
                sender,
                event_id,
                index,
                description,
                now,
            ),
    {
        proof {
            lemma_update_event_option_wf(self@, sender, event_id, index, description, now);
        }
        let (e, o): (usize, usize) = match (
            self.find_event(event_id),
            self.find_option(event_id, index),
        ) {
            (Some(e), Some(o)) => (e, o),
            _ => {
                return Err(ProgramError::AccountNotInitialized);
            },
        };
        let mut ctx = UpdateEventOption {
            authority: sender,
            event: self.events[e],
            option: self.options[o],
        };
        match ctx.update_event_option(index, event_id, description, now) {
            Err(e) => Err(e),
            Ok(()) => {
                self.options[o] = ctx.option;
                Ok(())
            },
        }
    }

    // ------------------------------ Votes ------------------------------ //
    /// Commits `amount` of the free stake of `sender` to the option
    /// `option_ix` of the event `event_id`. Nobody votes twice on one event.
    pub fn vote(
        &mut self,
        sender: Pubkey,
        event_id: u128,
        option_ix: u8,
        amount: u64,
        now: i64,
    ) -> (res: Result<(), ProgramError>)
        requires
            old(self)@.wf(),
        ensures
            final(self)@.wf(),
            res == old(self)@.vote_result(sender, event_id, option_ix, amount, now),
            final(self)@ == old(self)@.after_vote(sender, event_id, option_ix, amount, now),
    {
        proof {
            lemma_vote_wf(self@, sender, event_id, option_ix, amount, now);
        }
        let found = (
            self.find_user(&sender),
            self.find_event(event_id),
            self.find_option(event_id, option_ix),
        );
        let (u, e, o): (usize, usize, usize) = match found {
            (Some(u), Some(e), Some(o)) => (u, e, o),
            _ => {
                return Err(ProgramError::AccountNotInitialized);
            },
        };
        if self.find_participation(event_id, &sender).is_some() {
            return Err(ProgramError::AccountAlreadyInUse);
        }
        let mut ctx = Vote {
            sender,
            user: self.users[u],
            event: self.events[e],
            option: self.options[o],
            participation: Participation {
                version: 0,
                event_id,
                payer: sender,
                option: 0,
                deposited_amount: 0,
                is_claimed: false,
                appealed: false,
            },
        };
        match ctx.vote(event_id, option_ix, amount, now) {
            Err(e) => Err(e),
            Ok(()) => {
                self.users[u] = ctx.user;
                self.events[e] = ctx.event;
                self.options[o] = ctx.option;
                self.participations.push(ctx.participation);
                Ok(())
            },
        }
    }

    // ---------------------------- Settlement --------------------------- //
    /// Settles the vote of `sender` on the event `event_id`, strictly after
    /// the dispute window, and returns what is to be paid out.
    pub fn claim_event_reward(&mut self, sender: Pubkey, event_id: u128, now: i64) -> (res: Result<
        ClaimReceipt,
        ProgramError,
    >)
        requires
            old(self)@.wf(),
        ensures
            final(self)@.wf(),
            res == old(self)@.claim_event_reward_result(sender, event_id, now),
            final(self)@ == old(self)@.after_claim_event_reward(sender, event_id, now),
    {
        proof {
            lemma_claim_event_reward_wf(self@, sender, event_id, now);
        }
        let found = (
            self.state,
            self.find_user(&sender),
            self.find_event(event_id),
            self.find_participation(event_id, &sender),
        );
        let (state, u, e, p): (State, usize, usize, usize) = match found {
            (Some(state), Some(u), Some(e), Some(p)) => (state, u, e, p),
            _ => {
                return Err(ProgramError::AccountNotInitialized);
            },
        };
        let (o, a): (usize, usize) = match (
            self.find_option(event_id, self.participations[p].option),
            self.find_user(&self.events[e].authority),
        ) {
            (Some(o), Some(a)) => (o, a),
            _ => {
                return Err(ProgramError::AccountNotInitialized);
            },
        };
        let mut ctx = ClaimEventReward {
            sender,
            contract_admin: state.authority,
            user: self.users[u],
            event_admin: self.users[a],
            state,
            event: self.events[e],
            option: self.options[o],
            participation: self.participations[p],
        };
        match ctx.claim_event_reward(event_id, now) {
            Err(e) => Err(e),
            Ok(receipt) => {
                self.users[u] = ctx.user;
                self.users[a] = ctx.event_admin;
                self.events[e] = ctx.event;
                self.participations[p] = ctx.participation;
                Ok(receipt)
            },
        }
    }

    /// Refunds the vote of `sender` on the canceled event `event_id`, once,
    /// and returns the amount to hand back.
    pub fn recharge(&mut self, sender: Pubkey, event_id: u128) -> (res: Result<u64, ProgramError>)
        requires
            old(self)@.wf(),
        ensures
            final(self)@.wf(),
            res == old(self)@.recharge_result(sender, event_id),
            final(self)@ == old(self)@.after_recharge(sender, event_id),
    {
        proof {
            lemma_recharge_wf(self@, sender, event_id);
        }
        let found = (
            self.find_user(&sender),
            self.find_event(event_id),
            self.find_participation(event_id, &sender),
        );
        let (u, e, p): (usize, usize, usize) = match found {
            (Some(u), Some(e), Some(p)) => (u, e, p),
            _ => {
                return Err(ProgramError::AccountNotInitialized);
            },
        };
        let mut ctx = Recharge {
            sender,
            event: self.events[e],
            user: self.users[u],
            participant: self.participations[p],
        };
        match ctx.recharge(event_id) {
            Err(e) => Err(e),
            Ok(amount) => {
                self.users[u] = ctx.user;
                self.participations[p] = ctx.participant;
                Ok(amount)
            },
        }
    }

    /// Disputes the outcome of the event `event_id` in the name of `sender`,
    /// within the dispute window, and returns the stake that the creator
    /// forfeits to the platform.
    pub fn appeal(&mut self, sender: Pubkey, event_id: u128, now: i64) -> (res: Result<
        u64,
        ProgramError,
    >)
        requires
            old(self)@.wf(),
        ensures
            final(self)@.wf(),
            res == old(self)@.appeal_result(sender, event_id, now),
            final(self)@ == old(self)@.after_appeal(sender, event_id, now),
    {
        proof {
            lemma_appeal_wf(self@, sender, event_id, now);
        }
        let found = (
            self.state,
            self.find_user(&sender),
            self.find_event(event_id),
            self.find_participation(event_id, &sender),
        );
        let (state, u, e, p): (State, usize, usize, usize) = match found {
            (Some(state), Some(u), Some(e), Some(p)) => (state, u, e, p),
            _ => {
                return Err(ProgramError::AccountNotInitialized);
            },
        };
        let option_ix: u8 = match self.events[e].result {
            Some(winning) => winning,
            None => self.participations[p].option,
        };
        let (o, a): (usize, usize) = match (
            self.find_option(event_id, option_ix),
            self.find_user(&self.events[e].authority),
        ) {
            (Some(o), Some(a)) => (o, a),
            _ => {
                return Err(ProgramError::AccountNotInitialized);
            },
        };
        let slot = self.find_appellation(event_id);
        let appellation: Appellation = match slot {
            Some(i) => self.appellations[i],
            None => Appellation {
                version: 0,
                event_id,
                disagree_count: 0,
                disagree_trust_lvl: 0,
                disagree_volume: 0,
            },
        };
        let mut ctx = AppealResult {
            sender,
            contract_admin: state.authority,
            state,
            appellation,
            event: self.events[e],
            option: self.options[o],
            user: self.users[u],
            event_admin: self.users[a],
            participation: self.participations[p],
        };
        match ctx.appeal(event_id, now) {
            Err(e) => Err(e),
            Ok(forfeited) => {
                self.users[u] = ctx.user;
                self.users[a] = ctx.event_admin;
                self.events[e] = ctx.event;
                self.participations[p] = ctx.participation;
                match slot {
                    Some(i) => {
                        self.appellations[i] = ctx.appellation;
                    },
                    None => {
                        self.appellations.push(ctx.appellation);
                    },
                }
                Ok(forfeited)
            },
        }
    }

    /// Gives up `trust_amount` of the trust of `sender` to unlock collateral
    /// of the vote on the event `event_id`, and returns what is unlocked.
    pub fn burn_trust(
        &mut self,
        sender: Pubkey,
        event_id: u128,
        trust_amount: u64,
        now: i64,
    ) -> (res: Result<u64, ProgramError>)
        requires
            old(self)@.wf(),
        ensures
            final(self)@.wf(),
            res == old(self)@.burn_trust_result(sender, event_id, trust_amount, now),
            final(self)@ == old(self)@.after_burn_trust(sender, event_id, trust_amount, now),
    {
        proof {
            lemma_burn_trust_wf(self@, sender, event_id, trust_amount, now);
        }
        let found = (
            self.state,
            self.find_user(&sender),
            self.find_event(event_id),
            self.find_participation(event_id, &sender),
        );
        let (state, u, e, p): (State, usize, usize, usize) = match found {
            (Some(state), Some(u), Some(e), Some(p)) => (state, u, e, p),
            _ => {
                return Err(ProgramError::AccountNotInitialized);
            },
        };
        let o: usize = match self.find_option(event_id, self.participations[p].option) {
            Some(o) => o,
            None => {
                return Err(ProgramError::AccountNotInitialized);
            },
        };
        let mut ctx = BurnTrust {
            sender,
            state,
            event: self.events[e],
            option: self.options[o],
            user: self.users[u],
            participation: self.participations[p],
        };
        match ctx.burn_trust(event_id, trust_amount, now) {
            Err(e) => Err(e),
            Ok(amount) => {
                self.users[u] = ctx.user;
                self.events[e] = ctx.event;
                self.options[o] = ctx.option;
                self.participations[p] = ctx.participation;
                Ok(amount)
            },
        }
    }
}

} // verus!
