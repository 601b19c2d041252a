//! What settlements, refunds, disputes and the burning of trust do to the
//! records of a store, and that they keep the store well-formed.

use vstd::prelude::*;
use crate::context::participation::{
    AppealResult, BurnTrust, ClaimEventReward, ClaimReceipt, Recharge,
};
use crate::error::ProgramError;
use crate::ledger::accounting::{
    deposit_weight, deposited_behind, deposited_on, event_deposit_weight, event_weight,
    lemma_total_update, locked_by_events, locked_by_votes, pot_weight, recorded_locked,
    recorded_pot, recorded_vault, user_weight, vault_weight, vote_weight,
};
use crate::ledger::view::LedgerView;
use crate::pubkey::Pubkey;
use crate::state::appeal::Appellation;

verus! {

/// The dispute record of an event before the first dispute.
pub open spec fn blank_appellation(event_id: u128) -> Appellation {
    Appellation {
        version: 0,
        event_id,
        disagree_count: 0,
        disagree_trust_lvl: 0,
        disagree_volume: 0,
    }
}

impl LedgerView {
    // ---------------------------- Settlement --------------------------- //
    /// The records of the settlement of the vote of `sender` on the event
    /// `event_id`, if all of them exist: the configuration, the user, the
    /// event, the vote, the option voted for and the record of the event's
    /// creator.
    pub open spec fn claim_context(self, sender: Pubkey, event_id: u128) -> Option<
        ClaimEventReward,
    > {
        match (
            self.state,
            self.user_index(sender),
            self.event_index(event_id),
            self.participation_index(event_id, sender),
        ) {
            (Some(state), Some(u), Some(e), Some(p)) => match (
                self.option_index(event_id, self.participations[p].option),
                self.user_index(self.events[e].authority),
            ) {
                (Some(o), Some(a)) => Some(
                    ClaimEventReward {
                        sender,
                        contract_admin: state.authority,
                        user: self.users[u],
                        event_admin: self.users[a],
                        state,
                        event: self.events[e],
                        option: self.options[o],
                        participation: self.participations[p],
                    },
                ),
                _ => None,
            },
            _ => None,
        }
    }

    /// The result of the settlement at the time `now`.
    pub open spec fn claim_event_reward_result(
        self,
        sender: Pubkey,
        event_id: u128,
        now: i64,
    ) -> Result<ClaimReceipt, ProgramError> {
        match self.claim_context(sender, event_id) {
            None => Err(ProgramError::AccountNotInitialized),
            Some(ctx) => ctx.claim_result(now),
        }
    }

    /// The store after the settlement was asked for at the time `now`.
    pub open spec fn after_claim_event_reward(
        self,
        sender: Pubkey,
        event_id: u128,
        now: i64,
    ) -> LedgerView {
        if self.claim_event_reward_result(sender, event_id, now) is Ok {
            let settled = self.claim_context(sender, event_id)->0.settled();
            let e = self.event_index(event_id)->0;
            LedgerView {
                users: self.users.update(self.user_index(sender)->0, settled.user).update(
                    self.user_index(self.events[e].authority)->0,
                    settled.event_admin,
                ),
                events: self.events.update(e, settled.event),
                participations: self.participations.update(
                    self.participation_index(event_id, sender)->0,
                    settled.participation,
                ),
                ..self
            }
        } else {
            self
        }
    }

    // ------------------------------ Refund ----------------------------- //
    /// The records of the refund of the vote of `sender` on the event
    /// `event_id`, if all of them exist.
    pub open spec fn recharge_context(self, sender: Pubkey, event_id: u128) -> Option<Recharge> {
        match (
            self.user_index(sender),
            self.event_index(event_id),
            self.participation_index(event_id, sender),
        ) {
            (Some(u), Some(e), Some(p)) => Some(
                Recharge {
                    sender,
                    event: self.events[e],
                    user: self.users[u],
                    participant: self.participations[p],
                },
            ),
            _ => None,
        }
    }

    /// The result of the refund: the amount refunded, or why not.
    pub open spec fn recharge_result(self, sender: Pubkey, event_id: u128) -> Result<
        u64,
        ProgramError,
    > {
        match self.recharge_context(sender, event_id) {
            None => Err(ProgramError::AccountNotInitialized),
            Some(ctx) => ctx.recharge_result(),
        }
    }

    /// The store after the refund was asked for.
    pub open spec fn after_recharge(self, sender: Pubkey, event_id: u128) -> LedgerView {
        if self.recharge_result(sender, event_id) is Ok {
            let recharged = self.recharge_context(sender, event_id)->0.recharged();
            LedgerView {
                users: self.users.update(self.user_index(sender)->0, recharged.user),
                participations: self.participations.update(
                    self.participation_index(event_id, sender)->0,
                    recharged.participant,
                ),
                ..self
            }
        } else {
            self
        }
    }

    // ----------------------------- Dispute ----------------------------- //
    /// The records of a dispute of `sender` against the outcome of the event
    /// `event_id`, if all of them exist: the configuration, the user, the
    /// event, the vote, the winning option (the option voted for while no
    /// outcome is declared), the record of the event's creator, and the
    /// dispute record of the event, blank before the first dispute.
    pub open spec fn appeal_context(self, sender: Pubkey, event_id: u128) -> Option<AppealResult> {
        match (
            self.state,
            self.user_index(sender),
            self.event_index(event_id),
            self.participation_index(event_id, sender),
        ) {
            (Some(state), Some(u), Some(e), Some(p)) => match (
                self.option_index(
                    event_id,
                    match self.events[e].result {
                        Some(winning) => winning,
                        None => self.participations[p].option,
                    },
                ),
                self.user_index(self.events[e].authority),
            ) {
                (Some(o), Some(a)) => Some(
                    AppealResult {
                        sender,
                        contract_admin: state.authority,
                        state,
                        appellation: match self.appellation_index(event_id) {
                            Some(i) => self.appellations[i],
                            None => blank_appellation(event_id),
                        },
                        event: self.events[e],
                        option: self.options[o],
                        user: self.users[u],
                        event_admin: self.users[a],
                        participation: self.participations[p],
                    },
                ),
                _ => None,
            },
            _ => None,
        }
    }

    /// The result of the dispute at the time `now`: the stake that the
    /// creator forfeits to the platform, or why the dispute is refused.
    pub open spec fn appeal_result(self, sender: Pubkey, event_id: u128, now: i64) -> Result<
        u64,
        ProgramError,
    > {
        match self.appeal_context(sender, event_id) {
            None => Err(ProgramError::AccountNotInitialized),
            Some(ctx) => ctx.appeal_result(now),
        }
    }

    /// The store after the dispute was asked for at the time `now`.
    pub open spec fn after_appeal(self, sender: Pubkey, event_id: u128, now: i64) -> LedgerView {
        if self.appeal_result(sender, event_id, now) is Ok {
            let appealed = self.appeal_context(sender, event_id)->0.appealed(event_id);
            let e = self.event_index(event_id)->0;
            LedgerView {
                users: self.users.update(self.user_index(sender)->0, appealed.user).update(
                    self.user_index(self.events[e].authority)->0,
                    appealed.event_admin,
                ),
                events: self.events.update(e, appealed.event),
                participations: self.participations.update(
                    self.participation_index(event_id, sender)->0,
                    appealed.participation,
                ),
                appellations: match self.appellation_index(event_id) {
                    Some(i) => self.appellations.update(i, appealed.appellation),
                    None => self.appellations.push(appealed.appellation),
                },
                ..self
            }
        } else {
            self
        }
    }

    // -------------------------- Burning trust -------------------------- //
    /// The records of the burning of trust by `sender` on the event
    /// `event_id`, if all of them exist: the configuration, the user, the
    /// event, the vote and the option voted for.
    pub open spec fn burn_context(self, sender: Pubkey, event_id: u128) -> Option<BurnTrust> {
        match (
            self.state,
            self.user_index(sender),
            self.event_index(event_id),
            self.participation_index(event_id, sender),
        ) {
            (Some(state), Some(u), Some(e), Some(p)) => match self.option_index(
                event_id,
                self.participations[p].option,
            ) {
                Some(o) => Some(
                    BurnTrust {
                        sender,
                        state,
                        event: self.events[e],
                        option: self.options[o],
                        user: self.users[u],
                        participation: self.participations[p],
                    },
                ),
                None => None,
            },
            _ => None,
        }
    }

    /// The result of burning `trust_amount` at the time `now`: the
    /// collateral unlocked, or why the burning is refused.
    pub open spec fn burn_trust_result(
        self,
        sender: Pubkey,
        event_id: u128,
        trust_amount: u64,
        now: i64,
    ) -> Result<u64, ProgramError> {
        match self.burn_context(sender, event_id) {
            None => Err(ProgramError::AccountNotInitialized),
            Some(ctx) => ctx.burn_result(trust_amount, now),
        }
    }

    /// The store after the burning of `trust_amount` was asked for at the
    /// time `now`.
    pub open spec fn after_burn_trust(
        self,
        sender: Pubkey,
        event_id: u128,
        trust_amount: u64,
        now: i64,
    ) -> LedgerView {
        if self.burn_trust_result(sender, event_id, trust_amount, now) is Ok {
            let burned = self.burn_context(sender, event_id)->0.burned(trust_amount);
            let p = self.participation_index(event_id, sender)->0;
            LedgerView {
                users: self.users.update(self.user_index(sender)->0, burned.user),
                events: self.events.update(self.event_index(event_id)->0, burned.event),
                options: self.options.update(
                    self.option_index(event_id, self.participations[p].option)->0,
                    burned.option,
                ),
                participations: self.participations.update(p, burned.participation),
                ..self
            }
        } else {
            self
        }
    }

    /// Whether `other` holds records with the same keys at the same places
    /// in the tables of users, events, options and votes, and the same dates
    /// and descriptive data of the events.
    pub open spec fn same_keys(self, other: LedgerView) -> bool {
        &&& self.users.len() == other.users.len()
        &&& self.events.len() == other.events.len()
        &&& self.options.len() == other.options.len()
        &&& self.participations.len() == other.participations.len()
        &&& self.event_metas == other.event_metas
        &&& forall|i: int|
            0 <= i < self.users.len() ==> (#[trigger] self.users[i]).payer == other.users[i].payer
        &&& forall|i: int|
            0 <= i < self.events.len() ==> (#[trigger] self.events[i]).id == other.events[i].id
                && self.events[i].wf() == other.events[i].wf()
        &&& forall|i: int|
            0 <= i < self.options.len() ==> (#[trigger] self.options[i]).event_id
                == other.options[i].event_id && self.options[i].index == other.options[i].index
        &&& forall|i: int|
            0 <= i < self.participations.len() ==> (#[trigger] self.participations[i]).event_id
                == other.participations[i].event_id && self.participations[i].payer
                == other.participations[i].payer
    }
}

/// Records that keep their keys keep them unique, and events that keep
/// their dates keep them valid.
pub proof fn lemma_same_keys(ledger: LedgerView, after: LedgerView)
    requires
        ledger.keys_unique(),
        ledger.events_valid(),
        ledger.same_keys(after),
        after.appellations == ledger.appellations,
    ensures
        after.keys_unique(),
        after.events_valid(),
{
    assert forall|i: int, j: int| 0 <= i < j < after.users.len() implies after.users[i].payer
        != after.users[j].payer by {
        assert(ledger.users[i].payer != ledger.users[j].payer);
    }
    assert forall|i: int, j: int| 0 <= i < j < after.events.len() implies after.events[i].id
        != after.events[j].id by {
        assert(ledger.events[i].id != ledger.events[j].id);
    }
    assert forall|i: int, j: int| 0 <= i < j < after.options.len() implies !(
    after.options[i].event_id == after.options[j].event_id && after.options[i].index
        == after.options[j].index) by {
        assert(!(ledger.options[i].event_id == ledger.options[j].event_id
            && ledger.options[i].index == ledger.options[j].index));
    }
    assert forall|i: int, j: int| 0 <= i < j < after.participations.len() implies !(
    after.participations[i].event_id == after.participations[j].event_id
        && after.participations[i].payer == after.participations[j].payer) by {
        assert(!(ledger.participations[i].event_id == ledger.participations[j].event_id
            && ledger.participations[i].payer == ledger.participations[j].payer));
    }
    assert forall|i: int| 0 <= i < after.events.len() implies (#[trigger] after.events[i]).wf()
        && after.event_metas[i].id == after.events[i].id by {
        assert(ledger.events[i].wf());
    }
}

/// A settlement keeps the store well-formed.
pub proof fn lemma_claim_event_reward_wf(
    ledger: LedgerView,
    sender: Pubkey,
    event_id: u128,
    now: i64,
)
    requires
        ledger.wf(),
    ensures
        ledger.after_claim_event_reward(sender, event_id, now).wf(),
{
    if ledger.claim_event_reward_result(sender, event_id, now) is Ok {
        let after = ledger.after_claim_event_reward(sender, event_id, now);
        let ctx = ledger.claim_context(sender, event_id)->0;
        let settled = ctx.settled();
        let u = ledger.user_index(sender)->0;
        let e = ledger.event_index(event_id)->0;
        let p = ledger.participation_index(event_id, sender)->0;
        let a = ledger.user_index(ledger.events[e].authority)->0;
        assert(ledger.is_user(u, sender));
        assert(ledger.is_event(e, event_id));
        assert(ledger.is_participation(p, event_id, sender));
        assert(ledger.is_user(a, ledger.events[e].authority));
        assert(ctx.refusal(now) is None);
        assert(ctx.same_account() <==> u == a) by {
            if u < a {
                assert(ledger.users[u].payer != ledger.users[a].payer);
            } else if a < u {
                assert(ledger.users[a].payer != ledger.users[u].payer);
            }
        }
        let users1 = ledger.users.update(u, settled.user);
        lemma_same_keys(ledger, after);
        assert forall|key: Pubkey| #[trigger]
            recorded_locked(after.users, key) == locked_by_votes(after.participations, key)
                + locked_by_events(after.events, key) by {
            lemma_total_update(ledger.users, u, settled.user, user_weight(key));
            lemma_total_update(users1, a, settled.event_admin, user_weight(key));
            lemma_total_update(ledger.events, e, settled.event, event_weight(key));
            lemma_total_update(
                ledger.participations,
                p,
                settled.participation,
                vote_weight(key),
            );
            assert(recorded_locked(ledger.users, key) == locked_by_votes(
                ledger.participations,
                key,
            ) + locked_by_events(ledger.events, key));
        }
        assert forall|id: u128, index: u8| #[trigger]
            deposited_behind(after.participations, id, index) == recorded_vault(
                after.options,
                id,
                index,
            ) by {
            lemma_total_update(
                ledger.participations,
                p,
                settled.participation,
                deposit_weight(id, index),
            );
            assert(deposited_behind(ledger.participations, id, index) == recorded_vault(
                ledger.options,
                id,
                index,
            ));
        }
        assert forall|id: u128| #[trigger]
            deposited_on(after.participations, id) == recorded_pot(after.events, id) by {
            lemma_total_update(ledger.events, e, settled.event, pot_weight(id));
            lemma_total_update(
                ledger.participations,
                p,
                settled.participation,
                event_deposit_weight(id),
            );
            assert(deposited_on(ledger.participations, id) == recorded_pot(ledger.events, id));
        }
    }
}

/// A refund keeps the store well-formed.
pub proof fn lemma_recharge_wf(ledger: LedgerView, sender: Pubkey, event_id: u128)
    requires
        ledger.wf(),
    ensures
        ledger.after_recharge(sender, event_id).wf(),
{
    if ledger.recharge_result(sender, event_id) is Ok {
        let after = ledger.after_recharge(sender, event_id);
        let ctx = ledger.recharge_context(sender, event_id)->0;
        let recharged = ctx.recharged();
        let u = ledger.user_index(sender)->0;
        let p = ledger.participation_index(event_id, sender)->0;
        assert(ledger.is_user(u, sender));
        assert(ledger.is_participation(p, event_id, sender));
        assert(ctx.refusal() is None);
        lemma_same_keys(ledger, after);
        assert forall|key: Pubkey| #[trigger]
            recorded_locked(after.users, key) == locked_by_votes(after.participations, key)
                + locked_by_events(after.events, key) by {
            lemma_total_update(ledger.users, u, recharged.user, user_weight(key));
            lemma_total_update(
                ledger.participations,
                p,
                recharged.participant,
                vote_weight(key),
            );
            assert(recorded_locked(ledger.users, key) == locked_by_votes(
                ledger.participations,
                key,
            ) + locked_by_events(ledger.events, key));
        }
        assert forall|id: u128, index: u8| #[trigger]
            deposited_behind(after.participations, id, index) == recorded_vault(
                after.options,
                id,
                index,
            ) by {
            lemma_total_update(
                ledger.participations,
                p,
                recharged.participant,
                deposit_weight(id, index),
            );
            assert(deposited_behind(ledger.participations, id, index) == recorded_vault(
                ledger.options,
                id,
                index,
            ));
        }
        assert forall|id: u128| #[trigger]
            deposited_on(after.participations, id) == recorded_pot(after.events, id) by {
            lemma_total_update(
                ledger.participations,
                p,
                recharged.participant,
                event_deposit_weight(id),
            );
            assert(deposited_on(ledger.participations, id) == recorded_pot(ledger.events, id));
        }
    }
}

/// The burning of trust keeps the store well-formed.
pub proof fn lemma_burn_trust_wf(
    ledger: LedgerView,
    sender: Pubkey,
    event_id: u128,
    trust_amount: u64,
    now: i64,
)
    requires
        ledger.wf(),
    ensures
        ledger.after_burn_trust(sender, event_id, trust_amount, now).wf(),
{
    if ledger.burn_trust_result(sender, event_id, trust_amount, now) is Ok {
        let after = ledger.after_burn_trust(sender, event_id, trust_amount, now);
        let ctx = ledger.burn_context(sender, event_id)->0;
        let burned = ctx.burned(trust_amount);
        let u = ledger.user_index(sender)->0;
        let e = ledger.event_index(event_id)->0;
        let p = ledger.participation_index(event_id, sender)->0;
        let o = ledger.option_index(event_id, ledger.participations[p].option)->0;
        assert(ledger.is_user(u, sender));
        assert(ledger.is_event(e, event_id));
        assert(ledger.is_participation(p, event_id, sender));
        assert(ledger.is_option(o, event_id, ledger.participations[p].option));
        assert(ctx.refusal(trust_amount, now) is None);
        lemma_same_keys(ledger, after);
        assert forall|key: Pubkey| #[trigger]
            recorded_locked(after.users, key) == locked_by_votes(after.participations, key)
                + locked_by_events(after.events, key) by {
            lemma_total_update(ledger.users, u, burned.user, user_weight(key));
            lemma_total_update(ledger.events, e, burned.event, event_weight(key));
            lemma_total_update(
                ledger.participations,
                p,
                burned.participation,
                vote_weight(key),
            );
            assert(recorded_locked(ledger.users, key) == locked_by_votes(
                ledger.participations,
                key,
            ) + locked_by_events(ledger.events, key));
        }
        assert forall|id: u128, index: u8| #[trigger]
            deposited_behind(after.participations, id, index) == recorded_vault(
                after.options,
                id,
                index,
            ) by {
            lemma_total_update(ledger.options, o, burned.option, vault_weight(id, index));
            lemma_total_update(
                ledger.participations,
                p,
                burned.participation,
                deposit_weight(id, index),
            );
            assert(deposited_behind(ledger.participations, id, index) == recorded_vault(
                ledger.options,
                id,
                index,
            ));
        }
        assert forall|id: u128| #[trigger]
            deposited_on(after.participations, id) == recorded_pot(after.events, id) by {
            lemma_total_update(ledger.events, e, burned.event, pot_weight(id));
            lemma_total_update(
                ledger.participations,
                p,
                burned.participation,
                event_deposit_weight(id),
            );
            assert(deposited_on(ledger.participations, id) == recorded_pot(ledger.events, id));
        }
    }
}

/// A dispute keeps the store well-formed.
pub proof fn lemma_appeal_wf(ledger: LedgerView, sender: Pubkey, event_id: u128, now: i64)
    requires
        ledger.wf(),
    ensures
        ledger.after_appeal(sender, event_id, now).wf(),
{
    if ledger.appeal_result(sender, event_id, now) is Ok {
        let after = ledger.after_appeal(sender, event_id, now);
        let ctx = ledger.appeal_context(sender, event_id)->0;
        let appealed = ctx.appealed(event_id);
        let u = ledger.user_index(sender)->0;
        let e = ledger.event_index(event_id)->0;
        let p = ledger.participation_index(event_id, sender)->0;
        let a = ledger.user_index(ledger.events[e].authority)->0;
        assert(ledger.is_user(u, sender));
        assert(ledger.is_event(e, event_id));
        assert(ledger.is_participation(p, event_id, sender));
        assert(ledger.is_user(a, ledger.events[e].authority));
        assert(ctx.refusal(now) is None);
        assert(ctx.same_account() <==> u == a) by {
            if u < a {
                assert(ledger.users[u].payer != ledger.users[a].payer);
            } else if a < u {
                assert(ledger.users[a].payer != ledger.users[u].payer);
            }
        }
        let users1 = ledger.users.update(u, appealed.user);
        let middle = LedgerView { appellations: ledger.appellations, ..after };
        lemma_same_keys(ledger, middle);
        assert forall|i: int, j: int| 0 <= i < j < after.appellations.len() implies
            after.appellations[i].event_id != after.appellations[j].event_id by {
            match ledger.appellation_index(event_id) {
                Some(k) => {
                    assert(ledger.is_appellation(k, event_id));
                    assert(ledger.appellations[i].event_id != ledger.appellations[j].event_id);
                },
                None => {
                    if j == ledger.appellations.len() {
                        assert(!ledger.is_appellation(i, event_id));
                    } else {
                        assert(ledger.appellations[i].event_id
                            != ledger.appellations[j].event_id);
                    }
                },
            }
        }
        assert forall|key: Pubkey| #[trigger]
            recorded_locked(after.users, key) == locked_by_votes(after.participations, key)
                + locked_by_events(after.events, key) by {
            lemma_total_update(ledger.users, u, appealed.user, user_weight(key));
            lemma_total_update(users1, a, appealed.event_admin, user_weight(key));
            lemma_total_update(ledger.events, e, appealed.event, event_weight(key));
            lemma_total_update(
                ledger.participations,
                p,
                appealed.participation,
                vote_weight(key),
            );
            assert(recorded_locked(ledger.users, key) == locked_by_votes(
                ledger.participations,
                key,
            ) + locked_by_events(ledger.events, key));
        }
        assert forall|id: u128, index: u8| #[trigger]
            deposited_behind(after.participations, id, index) == recorded_vault(
                after.options,
                id,
                index,
            ) by {
            lemma_total_update(
                ledger.participations,
                p,
                appealed.participation,
                deposit_weight(id, index),
            );
            assert(deposited_behind(ledger.participations, id, index) == recorded_vault(
                ledger.options,
                id,
                index,
            ));
        }
        assert forall|id: u128| #[trigger]
            deposited_on(after.participations, id) == recorded_pot(after.events, id) by {
            lemma_total_update(ledger.events, e, appealed.event, pot_weight(id));
            lemma_total_update(
                ledger.participations,
                p,
                appealed.participation,
                event_deposit_weight(id),
            );
            assert(deposited_on(ledger.participations, id) == recorded_pot(ledger.events, id));
        }
    }
}

} // verus!
