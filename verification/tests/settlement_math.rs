use predictory::arbitration::is_dispute_credible;
use predictory::settlement::{burn_amount, claim_amount, split_pot, trust_reward, PotSplit};

#[test]
fn pot_is_split_into_fee_share_and_rest() {
    let split = split_pot(400, 10, 5);
    assert_eq!(split, PotSplit { platform_fee: 10, org_reward: 20, available_for_winners: 370 });
}

#[test]
fn creator_share_is_rounded_down() {
    let split = split_pot(199, 0, 1);
    assert_eq!(split, PotSplit { platform_fee: 0, org_reward: 1, available_for_winners: 198 });
    let split = split_pot(99, 0, 1);
    assert_eq!(split, PotSplit { platform_fee: 0, org_reward: 0, available_for_winners: 99 });
}

#[test]
fn fees_are_waived_when_they_exceed_the_pot() {
    let split = split_pot(100, 96, 5);
    assert_eq!(split, PotSplit { platform_fee: 0, org_reward: 0, available_for_winners: 100 });
    let split = split_pot(100, 95, 5);
    assert_eq!(split, PotSplit { platform_fee: 95, org_reward: 5, available_for_winners: 0 });
    let split = split_pot(u64::MAX, 0, u64::MAX);
    assert_eq!(
        split,
        PotSplit { platform_fee: 0, org_reward: 0, available_for_winners: u64::MAX }
    );
}

#[test]
fn empty_pot_pays_nothing() {
    let split = split_pot(0, 10, 5);
    assert_eq!(split, PotSplit { platform_fee: 0, org_reward: 0, available_for_winners: 0 });
    assert_eq!(claim_amount(0, 0, 0), Some(0));
}

#[test]
fn sole_winner_takes_all_that_is_available() {
    assert_eq!(claim_amount(100, 100, 370), Some(370));
}

#[test]
fn winners_share_in_proportion_rounded_down() {
    assert_eq!(claim_amount(1, 3, 100), Some(33));
    assert_eq!(claim_amount(2, 3, 100), Some(66));
    assert_eq!(claim_amount(30, 120, 1000), Some(250));
    assert_eq!(claim_amount(90, 120, 1000), Some(750));
}

#[test]
fn shares_never_add_up_to_more_than_what_is_available() {
    let deposits: [u64; 5] = [1, 2, 3, 5, 7];
    let vault: u64 = 18;
    let available: u64 = 1_000_003;
    let mut paid: u64 = 0;
    for d in deposits {
        paid += claim_amount(d, vault, available).unwrap();
    }
    assert!(paid <= available);
    assert_eq!(paid, 55555 + 111111 + 166667 + 277778 + 388890);
}

#[test]
fn share_of_an_empty_vault_is_nothing() {
    assert_eq!(claim_amount(5, 0, 100), Some(0));
}

#[test]
fn share_beyond_64_bits_is_refused() {
    assert_eq!(claim_amount(u64::MAX, 1, 2), None);
    assert_eq!(claim_amount(u64::MAX, u64::MAX, u64::MAX), Some(u64::MAX));
}

#[test]
fn trust_is_earned_per_whole_unit() {
    assert_eq!(trust_reward(1_000_000_000, 3), Some(3));
    assert_eq!(trust_reward(2_500_000_000, 2), Some(5));
    assert_eq!(trust_reward(999_999_999, 1), Some(0));
    assert_eq!(trust_reward(370, 1_000_000_000), Some(370));
    assert_eq!(trust_reward(0, 7), Some(0));
}

#[test]
fn trust_beyond_64_bits_is_refused() {
    assert_eq!(trust_reward(u64::MAX, u64::MAX), None);
    assert_eq!(trust_reward(u64::MAX, 1_000_000_000), Some(u64::MAX));
    assert_eq!(trust_reward(u64::MAX, 1_000_000_001), None);
}

#[test]
fn burned_trust_unlocks_whole_units_up_to_the_deposit() {
    assert_eq!(burn_amount(6, 3, 5_000_000_000), Some(2_000_000_000));
    assert_eq!(burn_amount(7, 3, 5_000_000_000), Some(2_333_333_333));
    assert_eq!(burn_amount(30, 3, 5_000_000_000), Some(5_000_000_000));
    assert_eq!(burn_amount(0, 3, 5_000_000_000), Some(0));
    assert_eq!(burn_amount(u64::MAX, 1, u64::MAX), Some(u64::MAX));
}

#[test]
fn trust_is_worth_nothing_without_a_multiplier() {
    assert_eq!(burn_amount(6, 0, 5_000_000_000), None);
}

#[test]
fn weighty_dissent_is_credible() {
    // 1 of 2 voters disagrees, holding 6 of 10 trust and the whole losing pool.
    assert!(is_dispute_credible(1, 6, 300, 2, 10, 300));
}

#[test]
fn dissent_of_equal_weight_is_not_credible() {
    // 1/2 is not smaller than 5/10 * 300/300.
    assert!(!is_dispute_credible(1, 5, 300, 2, 10, 300));
    assert!(!is_dispute_credible(1, 4, 300, 2, 10, 300));
}

#[test]
fn dissent_without_trust_or_voters_is_not_credible() {
    assert!(!is_dispute_credible(1, 0, 300, 2, 0, 300));
    assert!(!is_dispute_credible(1, 5, 300, 0, 10, 300));
    assert!(!is_dispute_credible(1, 5, 0, 2, 10, 300));
}

#[test]
fn dissent_against_an_empty_losing_pool_is_credible() {
    assert!(is_dispute_credible(1, 5, 100, 2, 10, 0));
}

#[test]
fn ratios_are_compared_exactly_beyond_128_bits() {
    let max = u64::MAX;
    assert!(!is_dispute_credible(max, max, max, max, max, max));
    assert!(is_dispute_credible(max - 1, max, max, max, max, max));
    assert!(!is_dispute_credible(max, max - 1, max, max, max, max));
    assert!(is_dispute_credible(max, max, max, max, max, max - 1));
    assert!(!is_dispute_credible(max, 1, 1, 1, max, max));
    assert!(is_dispute_credible(1, max, max, max, 1, 1));
    // 2^64 * (2^64 - 1) on both sides, then one less on either side.
    assert!(!is_dispute_credible(1 << 32, max, 1 << 32, 1 << 32, 1 << 32, max));
    assert!(is_dispute_credible(1 << 32, max, 1 << 32, 1 << 32, 1 << 32, max - 1));
    assert!(!is_dispute_credible(1 << 32, max - 1, 1 << 32, 1 << 32, 1 << 32, max));
}
