//! What holds of a well-formed store, whatever it holds.

use vstd::prelude::*;
use crate::context::participation::ClaimReceipt;
use crate::error::ProgramError;
use crate::ledger::accounting::{
    claim_weight, claims_of, deposit_weight, deposited_behind, deposited_on,
    event_deposit_weight, lemma_claims_bounded, lemma_total_at_least, lemma_total_monotone,
    lemma_total_single, locked_by_events, locked_by_votes, pot_weight, recorded_locked,
    recorded_pot, recorded_vault, user_weight, vault_weight, vote_weight,
};
use crate::ledger::settling::{lemma_claim_event_reward_wf, lemma_recharge_wf};
use crate::ledger::view::LedgerView;
use crate::pubkey::Pubkey;
use crate::settlement::{
    available_for_winners, lemma_claim_within_available, org_reward_paid, platform_fee_paid,
};

verus! {

/// At every point in time, the locked stake of every user is the sum of the
/// deposits of that user's votes that are not yet settled or refunded, and of
/// the stakes that the user has posted on events.
pub proof fn lemma_locked_stake_is_accounted(ledger: LedgerView, i: int)
    requires
        ledger.wf(),
        0 <= i < ledger.users.len(),
    ensures
        ledger.users[i].locked_stake == locked_by_votes(
            ledger.participations,
            ledger.users[i].payer,
        ) + locked_by_events(ledger.events, ledger.users[i].payer),
{
    let key = ledger.users[i].payer;
    assert forall|j: int| 0 <= j < ledger.users.len() && j != i implies user_weight(key)(
        #[trigger] ledger.users[j],
    ) == 0 by {
        if j < i {
            assert(ledger.users[j].payer != ledger.users[i].payer);
        } else {
            assert(ledger.users[i].payer != ledger.users[j].payer);
        }
    }
    lemma_total_single(ledger.users, i, user_weight(key));
    assert(recorded_locked(ledger.users, key) == ledger.users[i].locked_stake);
}

/// At every point in time, the locked stake of a user who has no stake
/// posted on an event is the sum of the deposits of that user's votes that
/// are not yet settled or refunded.
pub proof fn lemma_locked_stake_is_unsettled_deposits(ledger: LedgerView, i: int)
    requires
        ledger.wf(),
        0 <= i < ledger.users.len(),
        locked_by_events(ledger.events, ledger.users[i].payer) == 0,
    ensures
        ledger.users[i].locked_stake == locked_by_votes(
            ledger.participations,
            ledger.users[i].payer,
        ),
{
    lemma_locked_stake_is_accounted(ledger, i);
}

/// Nobody votes twice on one event: after an accepted vote, every further
/// vote of the same user on the same event is refused, whatever the option,
/// the amount and the time.
pub proof fn lemma_vote_is_cast_once(
    ledger: LedgerView,
    sender: Pubkey,
    event_id: u128,
    option_ix: u8,
    amount: u64,
    now: i64,
    next_option_ix: u8,
    next_amount: u64,
    later: i64,
)
    requires
        ledger.wf(),
        ledger.vote_result(sender, event_id, option_ix, amount, now) is Ok,
    ensures
        ledger.after_vote(sender, event_id, option_ix, amount, now).vote_result(
            sender,
            event_id,
            next_option_ix,
            next_amount,
            later,
        ) is Err,
        ledger.after_vote(sender, event_id, option_ix, amount, now).participation_index(
            event_id,
            sender,
        ) is Some,
{
    let after = ledger.after_vote(sender, event_id, option_ix, amount, now);
    assert(after.is_participation(ledger.participations.len() as int, event_id, sender));
}

/// Records that keep their keys are found where they were.
pub proof fn lemma_same_keys_same_places(
    ledger: LedgerView,
    after: LedgerView,
    key: Pubkey,
    event_id: u128,
    index: u8,
)
    requires
        ledger.keys_unique(),
        after.keys_unique(),
        ledger.same_keys(after),
    ensures
        after.user_index(key) == ledger.user_index(key),
        after.event_index(event_id) == ledger.event_index(event_id),
        after.option_index(event_id, index) == ledger.option_index(event_id, index),
        after.participation_index(event_id, key) == ledger.participation_index(event_id, key),
{
    match ledger.user_index(key) {
        Some(i) => {
            assert(ledger.is_user(i, key));
            assert(after.is_user(i, key));
            after.lemma_user_index(i, key);
        },
        None => {
            if after.user_index(key) is Some {
                assert(ledger.is_user(after.user_index(key)->0, key));
            }
        },
    }
    match ledger.event_index(event_id) {
        Some(i) => {
            assert(ledger.is_event(i, event_id));
            assert(after.is_event(i, event_id));
            after.lemma_event_index(i, event_id);
        },
        None => {
            if after.event_index(event_id) is Some {
                assert(ledger.is_event(after.event_index(event_id)->0, event_id));
            }
        },
    }
    match ledger.option_index(event_id, index) {
        Some(i) => {
            assert(ledger.is_option(i, event_id, index));
            assert(after.is_option(i, event_id, index));
            after.lemma_option_index(i, event_id, index);
        },
        None => {
            if after.option_index(event_id, index) is Some {
                assert(ledger.is_option(after.option_index(event_id, index)->0, event_id, index));
            }
        },
    }
    match ledger.participation_index(event_id, key) {
        Some(i) => {
            assert(ledger.is_participation(i, event_id, key));
            assert(after.is_participation(i, event_id, key));
            after.lemma_participation_index(i, event_id, key);
        },
        None => {
            if after.participation_index(event_id, key) is Some {
                assert(ledger.is_participation(
                    after.participation_index(event_id, key)->0,
                    event_id,
                    key,
                ));
            }
        },
    }
}

/// A vote is settled once: after an accepted settlement, every further one
/// of the same vote is refused as already claimed and leaves the store as it
/// is.
pub proof fn lemma_claim_is_settled_once(
    ledger: LedgerView,
    sender: Pubkey,
    event_id: u128,
    now: i64,
    later: i64,
)
    requires
        ledger.wf(),
        ledger.claim_event_reward_result(sender, event_id, now) is Ok,
    ensures
        ledger.after_claim_event_reward(sender, event_id, now).claim_event_reward_result(
            sender,
            event_id,
            later,
        ) == Err::<ClaimReceipt, ProgramError>(ProgramError::AlreadyClaimed),
        ledger.after_claim_event_reward(sender, event_id, now).after_claim_event_reward(
            sender,
            event_id,
            later,
        ) == ledger.after_claim_event_reward(sender, event_id, now),
{
    let after = ledger.after_claim_event_reward(sender, event_id, now);
    let u = ledger.user_index(sender)->0;
    let e = ledger.event_index(event_id)->0;
    let p = ledger.participation_index(event_id, sender)->0;
    let a = ledger.user_index(ledger.events[e].authority)->0;
    assert(ledger.is_user(u, sender));
    assert(ledger.is_event(e, event_id));
    assert(ledger.is_participation(p, event_id, sender));
    assert(ledger.is_user(a, ledger.events[e].authority));
    lemma_claim_event_reward_wf(ledger, sender, event_id, now);
    lemma_same_keys_same_places(ledger, after, sender, event_id, ledger.participations[p].option);
    lemma_same_keys_same_places(
        ledger,
        after,
        ledger.events[e].authority,
        event_id,
        ledger.participations[p].option,
    );
    assert(after.claim_context(sender, event_id) is Some);
}

/// A vote is refunded once: after an accepted refund, every further one of
/// the same vote is refused as already claimed and leaves the store as it
/// is.
pub proof fn lemma_refund_is_paid_once(ledger: LedgerView, sender: Pubkey, event_id: u128)
    requires
        ledger.wf(),
        ledger.recharge_result(sender, event_id) is Ok,
    ensures
        ledger.recharge_result(sender, event_id) == Ok::<u64, ProgramError>(
            ledger.participation(event_id, sender)->0.deposited_amount,
        ),
        ledger.after_recharge(sender, event_id).recharge_result(sender, event_id) == Err::<
            u64,
            ProgramError,
        >(ProgramError::AlreadyClaimed),
        ledger.after_recharge(sender, event_id).after_recharge(sender, event_id)
            == ledger.after_recharge(sender, event_id),
{
    let after = ledger.after_recharge(sender, event_id);
    let u = ledger.user_index(sender)->0;
    let e = ledger.event_index(event_id)->0;
    let p = ledger.participation_index(event_id, sender)->0;
    assert(ledger.is_user(u, sender));
    assert(ledger.is_event(e, event_id));
    assert(ledger.is_participation(p, event_id, sender));
    lemma_recharge_wf(ledger, sender, event_id);
    lemma_same_keys_same_places(ledger, after, sender, event_id, 0);
    assert(after.recharge_context(sender, event_id) is Some);
}

/// At every point in time, the pot of every event is the sum of the deposits
/// on it.
pub proof fn lemma_pot_is_sum_of_deposits(ledger: LedgerView, event_id: u128)
    requires
        ledger.wf(),
        ledger.event(event_id) is Some,
    ensures
        ledger.event(event_id)->0.total_amount == deposited_on(ledger.participations, event_id),
{
    let e = ledger.event_index(event_id)->0;
    assert(ledger.is_event(e, event_id));
    assert forall|j: int| 0 <= j < ledger.events.len() && j != e implies pot_weight(event_id)(
        #[trigger] ledger.events[j],
    ) == 0 by {
        if j < e {
            assert(ledger.events[j].id != ledger.events[e].id);
        } else {
            assert(ledger.events[e].id != ledger.events[j].id);
        }
    }
    lemma_total_single(ledger.events, e, pot_weight(event_id));
    assert(deposited_on(ledger.participations, event_id) == recorded_pot(ledger.events, event_id));
}

/// At every point in time, the vault balance of every option is the sum of
/// the deposits behind it.
pub proof fn lemma_vault_is_sum_of_deposits(ledger: LedgerView, event_id: u128, index: u8)
    requires
        ledger.wf(),
        ledger.option(event_id, index) is Some,
    ensures
        ledger.option(event_id, index)->0.vault_balance == deposited_behind(
            ledger.participations,
            event_id,
            index,
        ),
{
    let o = ledger.option_index(event_id, index)->0;
    assert(ledger.is_option(o, event_id, index));
    assert forall|j: int| 0 <= j < ledger.options.len() && j != o implies vault_weight(
        event_id,
        index,
    )(#[trigger] ledger.options[j]) == 0 by {
        if j < o {
            assert(!(ledger.options[j].event_id == ledger.options[o].event_id
                && ledger.options[j].index == ledger.options[o].index));
        } else {
            assert(!(ledger.options[o].event_id == ledger.options[j].event_id
                && ledger.options[o].index == ledger.options[j].index));
        }
    }
    lemma_total_single(ledger.options, o, vault_weight(event_id, index));
    assert(deposited_behind(ledger.participations, event_id, index) == recorded_vault(
        ledger.options,
        event_id,
        index,
    ));
}

/// At every point in time, the deposit of every vote that is not yet
/// settled or refunded is part of the voter's locked stake, where the voter
/// is registered.
pub proof fn lemma_deposit_is_locked(ledger: LedgerView, p: int)
    requires
        ledger.wf(),
        0 <= p < ledger.participations.len(),
        ledger.user(ledger.participations[p].payer) is Some,
    ensures
        ledger.participations[p].locked_amount() <= ledger.user(
            ledger.participations[p].payer,
        )->0.locked_stake,
{
    let key = ledger.participations[p].payer;
    let u = ledger.user_index(key)->0;
    assert(ledger.is_user(u, key));
    lemma_locked_stake_is_accounted(ledger, u);
    lemma_total_at_least(ledger.participations, p, vote_weight(key));
}

/// At every point in time, the deposit of every vote is part of the vault
/// balance of its option, and that in turn of the pot of its event, where
/// these exist.
pub proof fn lemma_deposit_is_in_vault_and_pot(ledger: LedgerView, p: int)
    requires
        ledger.wf(),
        0 <= p < ledger.participations.len(),
        ledger.event(ledger.participations[p].event_id) is Some,
        ledger.option(ledger.participations[p].event_id, ledger.participations[p].option) is Some,
    ensures
        ledger.participations[p].deposited_amount <= ledger.option(
            ledger.participations[p].event_id,
            ledger.participations[p].option,
        )->0.vault_balance,
        ledger.option(
            ledger.participations[p].event_id,
            ledger.participations[p].option,
        )->0.vault_balance <= ledger.event(ledger.participations[p].event_id)->0.total_amount,
{
    let event_id = ledger.participations[p].event_id;
    let index = ledger.participations[p].option;
    lemma_vault_is_sum_of_deposits(ledger, event_id, index);
    lemma_pot_is_sum_of_deposits(ledger, event_id);
    lemma_total_at_least(ledger.participations, p, deposit_weight(event_id, index));
    lemma_total_monotone(
        ledger.participations,
        deposit_weight(event_id, index),
        event_deposit_weight(event_id),
    );
}

/// Conservation: at every point in time and whichever option of an event
/// wins, what all votes for that option earn together, the creator's share
/// and the platform fee never exceed what is deposited on the event. The
/// creator's stake is released on top of that, so that no more leaves the
/// event than the deposits and that stake.
pub proof fn lemma_payouts_within_deposits(
    ledger: LedgerView,
    event_id: u128,
    winning: u8,
    platform_fee: u64,
    org_reward: u64,
)
    requires
        ledger.wf(),
        ledger.event(event_id) is Some,
        ledger.option(event_id, winning) is Some,
    ensures
        claims_of(
            ledger.participations,
            event_id,
            winning,
            ledger.option(event_id, winning)->0.vault_balance as nat,
            available_for_winners(
                ledger.event(event_id)->0.total_amount as nat,
                platform_fee as nat,
                org_reward as nat,
            ),
        ) + platform_fee_paid(
            ledger.event(event_id)->0.total_amount as nat,
            platform_fee as nat,
            org_reward as nat,
        ) + org_reward_paid(
            ledger.event(event_id)->0.total_amount as nat,
            platform_fee as nat,
            org_reward as nat,
        ) <= deposited_on(ledger.participations, event_id),
{
    let vault_balance = ledger.option(event_id, winning)->0.vault_balance as nat;
    let available = available_for_winners(
        ledger.event(event_id)->0.total_amount as nat,
        platform_fee as nat,
        org_reward as nat,
    );
    lemma_pot_is_sum_of_deposits(ledger, event_id);
    lemma_vault_is_sum_of_deposits(ledger, event_id, winning);
    lemma_claims_bounded(ledger.participations, event_id, winning, vault_balance, available);
    lemma_claim_within_available(
        deposited_behind(ledger.participations, event_id, winning),
        vault_balance,
        available,
    );
}

/// What a settlement pays to a winner is what the vote counts for in
/// [`claims_of`]; it pays nothing to a loser.
pub proof fn lemma_claim_pays_its_share(ledger: LedgerView, sender: Pubkey, event_id: u128)
    requires
        ledger.wf(),
        ledger.claim_context(sender, event_id) is Some,
        ledger.event(event_id)->0.result is Some,
    ensures
        ({
            let ctx = ledger.claim_context(sender, event_id)->0;
            let winning = ledger.event(event_id)->0.result->0;
            ctx.claim_payout() == if ctx.is_winner() {
                claim_weight(event_id, winning, ctx.option.vault_balance as nat, ctx.available())(
                    ledger.participation(event_id, sender)->0,
                )
            } else {
                0
            }
        }),
        ledger.claim_context(sender, event_id)->0.is_winner() ==> ledger.option(
            event_id,
            ledger.event(event_id)->0.result->0,
        ) == Some(ledger.claim_context(sender, event_id)->0.option),
{
    let p = ledger.participation_index(event_id, sender)->0;
    assert(ledger.is_participation(p, event_id, sender));
}

} // verus!
