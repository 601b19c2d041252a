//! Sums over the records of a store, by which locked stake is accounted for.

use vstd::prelude::*;
use crate::pubkey::Pubkey;
use crate::settlement::{claim_amount_of, lemma_floors_add};
use crate::state::event::Event;
use crate::state::option::EventOption;
use crate::state::participation::Participation;
use crate::state::user::User;

verus! {

/// The sum of the weights of `records`.
pub open spec fn total<T>(records: Seq<T>, weight: spec_fn(T) -> nat) -> nat
    decreases records.len(),
{
    if records.len() == 0 {
        0
    } else {
        total(records.drop_last(), weight) + weight(records.last())
    }
}

/// A new record adds its weight.
pub proof fn lemma_total_push<T>(records: Seq<T>, record: T, weight: spec_fn(T) -> nat)
    ensures
        total(records.push(record), weight) == total(records, weight) + weight(record),
{
    assert(records.push(record).drop_last() =~= records);
}

/// A changed record changes the sum by the change of its weight.
pub proof fn lemma_total_update<T>(records: Seq<T>, i: int, record: T, weight: spec_fn(T) -> nat)
    requires
        0 <= i < records.len(),
    ensures
        total(records.update(i, record), weight) + weight(records[i]) == total(records, weight)
            + weight(record),
    decreases records.len(),
{
    let changed = records.update(i, record);
    if i == records.len() - 1 {
        assert(changed.drop_last() =~= records.drop_last());
    } else {
        lemma_total_update(records.drop_last(), i, record, weight);
        assert(changed.drop_last() =~= records.drop_last().update(i, record));
    }
}

/// The sum is at least the weight of any one record.
pub proof fn lemma_total_at_least<T>(records: Seq<T>, i: int, weight: spec_fn(T) -> nat)
    requires
        0 <= i < records.len(),
    ensures
        weight(records[i]) <= total(records, weight),
    decreases records.len(),
{
    if i < records.len() - 1 {
        lemma_total_at_least(records.drop_last(), i, weight);
    }
}

/// A weight that is nowhere larger than another adds up to no more.
pub proof fn lemma_total_monotone<T>(
    records: Seq<T>,
    smaller: spec_fn(T) -> nat,
    larger: spec_fn(T) -> nat,
)
    requires
        forall|j: int| 0 <= j < records.len() ==> smaller(#[trigger] records[j]) <= larger(
            records[j],
        ),
    ensures
        total(records, smaller) <= total(records, larger),
    decreases records.len(),
{
    if records.len() > 0 {
        lemma_total_monotone(records.drop_last(), smaller, larger);
    }
}

/// Where one record alone has weight, the sum is its weight.
pub proof fn lemma_total_single<T>(records: Seq<T>, i: int, weight: spec_fn(T) -> nat)
    requires
        0 <= i < records.len(),
        forall|j: int| 0 <= j < records.len() && j != i ==> weight(#[trigger] records[j]) == 0,
    ensures
        total(records, weight) == weight(records[i]),
    decreases records.len(),
{
    if i == records.len() - 1 {
        lemma_total_none(records.drop_last(), weight);
    } else {
        lemma_total_single(records.drop_last(), i, weight);
    }
}

/// Where no record has weight, the sum is zero.
pub proof fn lemma_total_none<T>(records: Seq<T>, weight: spec_fn(T) -> nat)
    requires
        forall|j: int| 0 <= j < records.len() ==> weight(#[trigger] records[j]) == 0,
    ensures
        total(records, weight) == 0,
    decreases records.len(),
{
    if records.len() > 0 {
        lemma_total_none(records.drop_last(), weight);
    }
}

/// What a user record counts as locked for the holder of `key`.
pub open spec fn user_weight(key: Pubkey) -> spec_fn(User) -> nat {
    |user: User|
        if user.payer == key {
            user.locked_stake as nat
        } else {
            0
        }
}

/// What a vote keeps locked of the collateral of the holder of `key`.
pub open spec fn vote_weight(key: Pubkey) -> spec_fn(Participation) -> nat {
    |vote: Participation|
        if vote.payer == key {
            vote.locked_amount()
        } else {
            0
        }
}

/// What an event keeps locked of the collateral of the holder of `key`: the
/// stake that its creator has posted.
pub open spec fn event_weight(key: Pubkey) -> spec_fn(Event) -> nat {
    |event: Event|
        if event.authority == key {
            event.stake as nat
        } else {
            0
        }
}

/// The locked stake that `users` record for the holder of `key`.
pub open spec fn recorded_locked(users: Seq<User>, key: Pubkey) -> nat {
    total(users, user_weight(key))
}

/// The sum of the deposits of the votes of the holder of `key` that are not
/// yet settled or refunded.
pub open spec fn locked_by_votes(votes: Seq<Participation>, key: Pubkey) -> nat {
    total(votes, vote_weight(key))
}

/// The sum of the stakes that the holder of `key` has posted on events.
pub open spec fn locked_by_events(events: Seq<Event>, key: Pubkey) -> nat {
    total(events, event_weight(key))
}

/// What a vote has deposited behind the option `index` of the event
/// `event_id`.
pub open spec fn deposit_weight(event_id: u128, index: u8) -> spec_fn(Participation) -> nat {
    |vote: Participation|
        if vote.event_id == event_id && vote.option == index {
            vote.deposited_amount as nat
        } else {
            0
        }
}

/// What an option record counts as deposited behind the option `index` of
/// the event `event_id`.
pub open spec fn vault_weight(event_id: u128, index: u8) -> spec_fn(EventOption) -> nat {
    |option: EventOption|
        if option.event_id == event_id && option.index == index {
            option.vault_balance as nat
        } else {
            0
        }
}

/// What a vote has deposited on the event `event_id`.
pub open spec fn event_deposit_weight(event_id: u128) -> spec_fn(Participation) -> nat {
    |vote: Participation|
        if vote.event_id == event_id {
            vote.deposited_amount as nat
        } else {
            0
        }
}

/// What an event record counts as deposited on the event `event_id`.
pub open spec fn pot_weight(event_id: u128) -> spec_fn(Event) -> nat {
    |event: Event|
        if event.id == event_id {
            event.total_amount as nat
        } else {
            0
        }
}

/// What a vote for the option `index` of the event `event_id` earns if that
/// option wins, with `vault_balance` behind it and `available` to share.
pub open spec fn claim_weight(
    event_id: u128,
    index: u8,
    vault_balance: nat,
    available: nat,
) -> spec_fn(Participation) -> nat {
    |vote: Participation|
        if vote.event_id == event_id && vote.option == index {
            claim_amount_of(vote.deposited_amount as nat, vault_balance, available)
        } else {
            0
        }
}

/// The sum of the deposits behind the option `index` of the event
/// `event_id`.
pub open spec fn deposited_behind(votes: Seq<Participation>, event_id: u128, index: u8) -> nat {
    total(votes, deposit_weight(event_id, index))
}

/// The vault balance that `options` record for the option `index` of the
/// event `event_id`.
pub open spec fn recorded_vault(options: Seq<EventOption>, event_id: u128, index: u8) -> nat {
    total(options, vault_weight(event_id, index))
}

/// The sum of the deposits on the event `event_id`.
pub open spec fn deposited_on(votes: Seq<Participation>, event_id: u128) -> nat {
    total(votes, event_deposit_weight(event_id))
}

/// The pot that `events` record for the event `event_id`.
pub open spec fn recorded_pot(events: Seq<Event>, event_id: u128) -> nat {
    total(events, pot_weight(event_id))
}

/// What all votes for the option `index` of the event `event_id` earn
/// together if that option wins.
pub open spec fn claims_of(
    votes: Seq<Participation>,
    event_id: u128,
    index: u8,
    vault_balance: nat,
    available: nat,
) -> nat {
    total(votes, claim_weight(event_id, index, vault_balance, available))
}

/// The shares of the votes for an option add up to no more than the share
/// of the sum of their deposits.
pub proof fn lemma_claims_bounded(
    votes: Seq<Participation>,
    event_id: u128,
    index: u8,
    vault_balance: nat,
    available: nat,
)
    ensures
        claims_of(votes, event_id, index, vault_balance, available) <= claim_amount_of(
            deposited_behind(votes, event_id, index),
            vault_balance,
            available,
        ),
    decreases votes.len(),
{
    if votes.len() == 0 {
        assert(0nat * available == 0) by (nonlinear_arith);
    } else {
        let rest = votes.drop_last();
        let last = deposit_weight(event_id, index)(votes.last());
        lemma_claims_bounded(rest, event_id, index, vault_balance, available);
        if vault_balance > 0 {
            lemma_floors_add(
                deposited_behind(rest, event_id, index) * available,
                last * available,
                vault_balance,
            );
            assert(deposited_behind(rest, event_id, index) * available + last * available == (
            deposited_behind(rest, event_id, index) + last) * available) by (nonlinear_arith);
            assert(0nat * available == 0) by (nonlinear_arith);
        }
    }
}

} // verus!
