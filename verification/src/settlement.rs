//! The arithmetic of a settlement.
//!
//! Every amount is a whole number of smallest units. Every quotient is
//! rounded down, so that what is paid out never exceeds what was paid in.

use vstd::prelude::*;
use vstd::arithmetic::div_mod::{
    lemma_div_is_ordered, lemma_div_multiples_vanish, lemma_fundamental_div_mod, lemma_mod_bound,
};
use vstd::arithmetic::mul::{
    lemma_mul_inequality, lemma_mul_is_commutative, lemma_mul_is_distributive_add_other_way,
};
use crate::context::constants::LAMPORTS_PER_SOL;

verus! {

/// The share of a pot of `total_amount` that is reserved for the event's
/// creator, at `org_reward_pct` percent.
pub open spec fn org_reward_of(total_amount: nat, org_reward_pct: nat) -> nat {
    total_amount * org_reward_pct / 100
}

/// Whether the pot covers the platform fee and the creator's share. If it
/// does not, both are waived.
pub open spec fn fees_collected(total_amount: nat, platform_fee: nat, org_reward_pct: nat) -> bool {
    platform_fee + org_reward_of(total_amount, org_reward_pct) <= total_amount
}

/// The platform fee that is taken from the pot.
pub open spec fn platform_fee_paid(
    total_amount: nat,
    platform_fee: nat,
    org_reward_pct: nat,
) -> nat {
    if fees_collected(total_amount, platform_fee, org_reward_pct) {
        platform_fee
    } else {
        0
    }
}

/// The creator's share that is taken from the pot.
pub open spec fn org_reward_paid(total_amount: nat, platform_fee: nat, org_reward_pct: nat) -> nat {
    if fees_collected(total_amount, platform_fee, org_reward_pct) {
        org_reward_of(total_amount, org_reward_pct)
    } else {
        0
    }
}

/// What is left of the pot for the winners.
pub open spec fn available_for_winners(
    total_amount: nat,
    platform_fee: nat,
    org_reward_pct: nat,
) -> nat {
    (total_amount - platform_fee_paid(total_amount, platform_fee, org_reward_pct) - org_reward_paid(
        total_amount,
        platform_fee,
        org_reward_pct,
    )) as nat
}

/// The share of `available` that a deposit of `deposited_amount` earns among
/// the `vault_balance` deposited behind the winning option.
pub open spec fn claim_amount_of(deposited_amount: nat, vault_balance: nat, available: nat) -> nat {
    if vault_balance == 0 {
        0
    } else {
        deposited_amount * available / vault_balance
    }
}

/// The trust earned with `amount`, at `multiplier` per whole unit.
pub open spec fn trust_reward_of(amount: nat, multiplier: nat) -> nat {
    amount * multiplier / (LAMPORTS_PER_SOL as nat)
}

/// The collateral that `trust_amount` unlocks of a deposit of
/// `deposited_amount`, at `multiplier` trust per whole unit.
pub open spec fn burn_amount_of(trust_amount: nat, multiplier: nat, deposited_amount: nat) -> nat {
    let worth = trust_amount * (LAMPORTS_PER_SOL as nat) / multiplier;
    if worth < deposited_amount {
        worth
    } else {
        deposited_amount
    }
}

/// How the pot of a completed event is divided.
#[derive(Clone, Copy, Debug, PartialEq, Eq, Structural)]
pub struct PotSplit {
    /// The fee that goes to the platform.
    pub platform_fee: u64,
    /// The share that goes to the event's creator.
    pub org_reward: u64,
    /// What the winners share.
    pub available_for_winners: u64,
}

/// Divides a pot of `total_amount`. The three parts add up to the pot.
pub fn split_pot(total_amount: u64, platform_fee: u64, org_reward_pct: u64) -> (split: PotSplit)
    ensures
        split.platform_fee == platform_fee_paid(
            total_amount as nat,
            platform_fee as nat,
            org_reward_pct as nat,
        ),
        split.org_reward == org_reward_paid(
            total_amount as nat,
            platform_fee as nat,
            org_reward_pct as nat,
        ),
        split.available_for_winners == available_for_winners(
            total_amount as nat,
            platform_fee as nat,
            org_reward_pct as nat,
        ),
        split.platform_fee + split.org_reward + split.available_for_winners == total_amount,
{
    proof {
        lemma_product_fits(total_amount, org_reward_pct);
    }
    let org_reward: u128 = (total_amount as u128) * (org_reward_pct as u128) / 100;
    if platform_fee as u128 + org_reward <= total_amount as u128 {
        let org: u64 = org_reward as u64;
        PotSplit {
            platform_fee,
            org_reward: org,
            available_for_winners: total_amount - platform_fee - org,
        }
    } else {
        PotSplit { platform_fee: 0, org_reward: 0, available_for_winners: total_amount }
    }
}

/// The winner's share, or `None` if it does not fit in 64 bits. It always
/// fits if the deposit is part of the vault balance.
pub fn claim_amount(deposited_amount: u64, vault_balance: u64, available: u64) -> (amount: Option<
    u64,
>)
    ensures
        amount matches Some(a) ==> a == claim_amount_of(
            deposited_amount as nat,
            vault_balance as nat,
            available as nat,
        ),
        amount is None <==> claim_amount_of(
            deposited_amount as nat,
            vault_balance as nat,
            available as nat,
        ) > u64::MAX,
        deposited_amount <= vault_balance ==> amount is Some,
{
    proof {
        lemma_product_fits(deposited_amount, available);
        if deposited_amount <= vault_balance {
            lemma_claim_within_available(
                deposited_amount as nat,
                vault_balance as nat,
                available as nat,
            );
        }
    }
    if vault_balance == 0 {
        return Some(0);
    }
    let share: u128 = (deposited_amount as u128) * (available as u128) / (vault_balance as u128);
    if share <= u64::MAX as u128 {
        Some(share as u64)
    } else {
        None
    }
}

/// The trust earned with `amount`, or `None` if it does not fit in 64 bits.
pub fn trust_reward(amount: u64, multiplier: u64) -> (reward: Option<u64>)
    ensures
        reward matches Some(r) ==> r == trust_reward_of(amount as nat, multiplier as nat),
        reward is None <==> trust_reward_of(amount as nat, multiplier as nat) > u64::MAX,
{
    proof {
        lemma_product_fits(amount, multiplier);
    }
    let reward: u128 = (amount as u128) * (multiplier as u128) / (LAMPORTS_PER_SOL as u128);
    if reward <= u64::MAX as u128 {
        Some(reward as u64)
    } else {
        None
    }
}

/// The collateral that `trust_amount` unlocks, or `None` if trust has no
/// worth because the multiplier is zero.
pub fn burn_amount(trust_amount: u64, multiplier: u64, deposited_amount: u64) -> (amount: Option<
    u64,
>)
    ensures
        amount is None <==> multiplier == 0,
        amount matches Some(a) ==> a == burn_amount_of(
            trust_amount as nat,
            multiplier as nat,
            deposited_amount as nat,
        ) && a <= deposited_amount,
{
    if multiplier == 0 {
        return None;
    }
    proof {
        lemma_product_fits(trust_amount, LAMPORTS_PER_SOL);
    }
    let worth: u128 = (trust_amount as u128) * (LAMPORTS_PER_SOL as u128) / (multiplier as u128);
    if worth < deposited_amount as u128 {
        Some(worth as u64)
    } else {
        Some(deposited_amount)
    }
}

/// The product of two 64-bit numbers fits in 128 bits.
pub proof fn lemma_product_fits(a: u64, b: u64)
    ensures
        0 <= a * b <= u128::MAX,
{
    assert(0 <= a * b <= 0xffff_ffff_ffff_ffff * 0xffff_ffff_ffff_ffff) by (nonlinear_arith)
        requires
            0 <= a <= 0xffff_ffff_ffff_ffff,
            0 <= b <= 0xffff_ffff_ffff_ffff,
    ;
}

/// Rounding down each of two quotients loses at least as much as rounding
/// down the quotient of the sum.
pub proof fn lemma_floors_add(x: nat, y: nat, d: nat)
    requires
        d > 0,
    ensures
        x / d + y / d <= (x + y) / d,
{
    let dd = d as int;
    let q = (x / d + y / d) as int;
    lemma_fundamental_div_mod(x as int, dd);
    lemma_fundamental_div_mod(y as int, dd);
    lemma_mod_bound(x as int, dd);
    lemma_mod_bound(y as int, dd);
    lemma_mul_is_distributive_add_other_way(dd, (x / d) as int, (y / d) as int);
    lemma_mul_is_commutative(dd, q);
    assert(q * dd <= x + y) by {
        assert(dd * ((x / d) as int) + dd * ((y / d) as int) == dd * q) by (nonlinear_arith)
            requires
                q == (x / d) as int + (y / d) as int,
        ;
    }
    lemma_div_is_ordered(q * dd, (x + y) as int, dd);
    lemma_div_multiples_vanish(q, dd);
}

/// A deposit that is part of the vault balance earns no more than what is
/// available.
pub proof fn lemma_claim_within_available(deposited_amount: nat, vault_balance: nat, available: nat)
    requires
        deposited_amount <= vault_balance,
    ensures
        claim_amount_of(deposited_amount, vault_balance, available) <= available,
{
    if vault_balance > 0 {
        lemma_mul_inequality(deposited_amount as int, vault_balance as int, available as int);
        lemma_div_is_ordered(
            (deposited_amount * available) as int,
            (vault_balance * available) as int,
            vault_balance as int,
        );
        lemma_mul_is_commutative(vault_balance as int, available as int);
        lemma_div_multiples_vanish(available as int, vault_balance as int);
    }
}

/// The sum of `amounts`.
pub open spec fn sum_of(amounts: Seq<nat>) -> nat
    decreases amounts.len(),
{
    if amounts.len() == 0 {
        0
    } else {
        sum_of(amounts.drop_last()) + amounts.last()
    }
}

/// The sum of the shares that the deposits `deposits` earn.
pub open spec fn total_claims(deposits: Seq<nat>, vault_balance: nat, available: nat) -> nat
    decreases deposits.len(),
{
    if deposits.len() == 0 {
        0
    } else {
        total_claims(deposits.drop_last(), vault_balance, available) + claim_amount_of(
            deposits.last(),
            vault_balance,
            available,
        )
    }
}

/// The shares of several deposits add up to no more than the share of their
/// sum.
pub proof fn lemma_total_claims_bounded(deposits: Seq<nat>, vault_balance: nat, available: nat)
    ensures
        total_claims(deposits, vault_balance, available) <= claim_amount_of(
            sum_of(deposits),
            vault_balance,
            available,
        ),
    decreases deposits.len(),
{
    if deposits.len() == 0 {
        assert(0nat * available == 0) by (nonlinear_arith);
    } else if vault_balance > 0 {
        let rest = deposits.drop_last();
        lemma_total_claims_bounded(rest, vault_balance, available);
        lemma_floors_add(sum_of(rest) * available, deposits.last() * available, vault_balance);
        assert(sum_of(rest) * available + deposits.last() * available == sum_of(deposits)
            * available) by (nonlinear_arith)
            requires
                sum_of(deposits) == sum_of(rest) + deposits.last(),
        ;
    } else {
        lemma_total_claims_bounded(deposits.drop_last(), vault_balance, available);
    }
}

/// Conservation: whatever deposits stand behind the winning option, as long
/// as they add up to no more than its vault balance, the winners' shares, the
/// creator's share and the platform fee together never exceed the pot.
pub proof fn lemma_payouts_within_pot(
    deposits: Seq<nat>,
    vault_balance: nat,
    total_amount: nat,
    platform_fee: nat,
    org_reward_pct: nat,
)
    requires
        sum_of(deposits) <= vault_balance,
    ensures
        total_claims(
            deposits,
            vault_balance,
            available_for_winners(total_amount, platform_fee, org_reward_pct),
        ) + platform_fee_paid(total_amount, platform_fee, org_reward_pct) + org_reward_paid(
            total_amount,
            platform_fee,
            org_reward_pct,
        ) <= total_amount,
{
    let available = available_for_winners(total_amount, platform_fee, org_reward_pct);
    lemma_total_claims_bounded(deposits, vault_balance, available);
    lemma_claim_within_available(sum_of(deposits), vault_balance, available);
}

} // verus!
