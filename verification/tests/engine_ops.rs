use creator_support::engine::claim_rewards;
use creator_support::engine::support_creator;
use creator_support::engine::unstake;
use creator_support::errors::ErrorCode;
use creator_support::state::initialize;
use creator_support::state::initialize_creator;
use creator_support::state::CreatorSupport;
use creator_support::state::SupporterStake;

const SECONDS_PER_YEAR: i64 = 31_536_000;

fn test_registry() -> CreatorSupport {
    initialize(0, 1, 200, 50, 10, 60, 2, 3, 100)
}

fn empty_stake() -> SupporterStake {
    SupporterStake {
        supporter: 0,
        creator: 0,
        staked_amount: 0,
        stake_start_time: 0,
        last_claim_time: 0,
    }
}

#[test]
fn initialize_records_every_parameter() {
    let registry = initialize(7, 11, 200, 50, 10, 60, 21, 22, 100);
    assert_eq!(registry.price_per_impact, 7);
    assert_eq!(registry.admin, 11);
    assert_eq!(registry.max_reward_multiplier, 200);
    assert_eq!(registry.scaling_factor, 50);
    assert_eq!(registry.apr, 10);
    assert_eq!(registry.supporter_reward_ratio, 60);
    assert_eq!(registry.reward_mint, 21);
    assert_eq!(registry.stablecoin_mint, 22);
    assert_eq!(registry.min_stake_amount, 100);
}

#[test]
fn initialize_creator_zeroes_counters() {
    let creator = initialize_creator(1234);
    assert!(creator.exists);
    assert_eq!(creator.registration_time, 1234);
    assert_eq!(creator.last_reward_calculation_time, 1234);
    assert_eq!(creator.total_supporters, 0);
    assert_eq!(creator.total_support_amount, 0);
    assert_eq!(creator.total_staked, 0);
    assert_eq!(creator.accumulated_rewards, 0);
    assert_eq!(creator.total_unique_supporters, 0);
}

#[test]
fn contribution_splits_seventy_thirty() {
    let registry = test_registry();
    let mut creator = initialize_creator(0);
    let mut stake = empty_stake();
    let outcome = support_creator(&registry, &mut creator, &mut stake, 7, 8, 1000, 50).unwrap();
    assert_eq!(outcome.immediate_allocation, 700);
    assert_eq!(outcome.staked_allocation, 300);
    assert!(outcome.is_new_supporter);
    assert_eq!(creator.total_support_amount, 700);
    assert_eq!(creator.total_staked, 300);
    assert_eq!(creator.total_unique_supporters, 1);
    assert_eq!(stake.supporter, 7);
    assert_eq!(stake.creator, 8);
    assert_eq!(stake.staked_amount, 300);
    assert_eq!(stake.stake_start_time, 50);
    assert_eq!(stake.last_claim_time, 50);
}

#[test]
fn one_year_claim_pays_scaled_reward() {
    let registry = test_registry();
    let mut creator = initialize_creator(0);
    let mut stake = empty_stake();
    support_creator(&registry, &mut creator, &mut stake, 7, 8, 1000, 0).unwrap();
    let outcome = claim_rewards(&registry, &mut creator, &mut stake, SECONDS_PER_YEAR).unwrap();
    assert_eq!(outcome.reward_amount, 30_000_000);
    assert_eq!(outcome.supporter_reward, 18_000_000);
    assert_eq!(outcome.creator_reward, 12_000_000);
    assert_eq!(creator.accumulated_rewards, 12_000_000);
    assert_eq!(stake.last_claim_time, SECONDS_PER_YEAR);
    assert_eq!(stake.staked_amount, 300);
}

#[test]
fn unstake_over_ceiling_rejected_then_ceiling_succeeds() {
    let registry = test_registry();
    let mut creator = initialize_creator(0);
    let mut stake = empty_stake();
    support_creator(&registry, &mut creator, &mut stake, 7, 8, 1000, 0).unwrap();
    assert_eq!(stake.staked_amount, 300);
    let too_large = unstake(&registry, &mut creator, &mut stake, 200);
    assert_eq!(too_large, Err(ErrorCode::UnstakeAmountTooLarge));
    assert_eq!(stake.staked_amount, 300);
    assert_eq!(creator.total_staked, 300);
    let withdrawn = unstake(&registry, &mut creator, &mut stake, 180).unwrap();
    assert_eq!(withdrawn, 180);
    assert_eq!(stake.staked_amount, 120);
    assert_eq!(creator.total_staked, 120);
}

#[test]
fn unstake_ceiling_ratchets_down_with_remaining_principal() {
    let registry = test_registry();
    let mut creator = initialize_creator(0);
    let mut stake = empty_stake();
    support_creator(&registry, &mut creator, &mut stake, 7, 8, 1000, 0).unwrap();
    unstake(&registry, &mut creator, &mut stake, 180).unwrap();
    // The ceiling is recomputed from the remaining 120: floor(120 * 60 / 100) = 72.
    let too_large = unstake(&registry, &mut creator, &mut stake, 73);
    assert_eq!(too_large, Err(ErrorCode::UnstakeAmountTooLarge));
    let withdrawn = unstake(&registry, &mut creator, &mut stake, 72).unwrap();
    assert_eq!(withdrawn, 72);
    assert_eq!(stake.staked_amount, 48);
    assert_eq!(creator.total_staked, 48);
}

#[test]
fn second_contribution_is_not_a_new_supporter() {
    let registry = test_registry();
    let mut creator = initialize_creator(0);
    let mut stake = empty_stake();
    let first = support_creator(&registry, &mut creator, &mut stake, 7, 8, 1000, 10).unwrap();
    assert!(first.is_new_supporter);
    let second = support_creator(&registry, &mut creator, &mut stake, 7, 8, 1000, 20).unwrap();
    assert!(!second.is_new_supporter);
    assert_eq!(creator.total_unique_supporters, 1);
    assert_eq!(stake.staked_amount, 600);
    assert_eq!(stake.stake_start_time, 20);
    assert_eq!(stake.last_claim_time, 20);
}

#[test]
fn contribution_below_minimum_rejected_without_mutation() {
    let registry = test_registry();
    let mut creator = initialize_creator(0);
    let mut stake = empty_stake();
    let creator_before = creator;
    let stake_before = stake;
    let result = support_creator(&registry, &mut creator, &mut stake, 7, 8, 50, 10);
    assert_eq!(result, Err(ErrorCode::StakeTooSmall));
    assert_eq!(creator, creator_before);
    assert_eq!(stake, stake_before);
}

#[test]
fn zero_contribution_rejected_as_too_small() {
    let registry = test_registry();
    let mut creator = initialize_creator(0);
    let mut stake = empty_stake();
    let result = support_creator(&registry, &mut creator, &mut stake, 7, 8, 0, 10);
    assert_eq!(result, Err(ErrorCode::StakeTooSmall));
    assert_eq!(creator.total_unique_supporters, 0);
}

#[test]
fn oversized_contribution_fails_percentage_step() {
    let registry = test_registry();
    let mut creator = initialize_creator(0);
    let mut stake = empty_stake();
    let result = support_creator(&registry, &mut creator, &mut stake, 7, 8, u64::MAX, 10);
    assert_eq!(result, Err(ErrorCode::InvalidPercentage));
    assert_eq!(creator.total_support_amount, 0);
    assert_eq!(stake.staked_amount, 0);
}

#[test]
fn below_minimum_beats_support_total_overflow() {
    // A below-minimum contribution is rejected as too small even when the
    // creator's support total could not take the immediate share either.
    let registry = test_registry();
    let mut creator = initialize_creator(0);
    creator.total_support_amount = u64::MAX;
    let mut stake = empty_stake();
    let creator_before = creator;
    let result = support_creator(&registry, &mut creator, &mut stake, 7, 8, 50, 10);
    assert_eq!(result, Err(ErrorCode::StakeTooSmall));
    assert_eq!(creator, creator_before);
    assert_eq!(stake, empty_stake());
}

#[test]
fn support_total_overflow_rejected_without_mutation() {
    let registry = test_registry();
    let mut creator = initialize_creator(0);
    creator.total_support_amount = u64::MAX;
    let mut stake = empty_stake();
    let creator_before = creator;
    let result = support_creator(&registry, &mut creator, &mut stake, 7, 8, 1000, 10);
    assert_eq!(result, Err(ErrorCode::Overflow));
    assert_eq!(creator, creator_before);
    assert_eq!(stake, empty_stake());
}

#[test]
fn backwards_clock_claim_rejected_without_mutation() {
    let registry = test_registry();
    let mut creator = initialize_creator(0);
    let mut stake = empty_stake();
    support_creator(&registry, &mut creator, &mut stake, 7, 8, 1000, 100).unwrap();
    let creator_before = creator;
    let stake_before = stake;
    let result = claim_rewards(&registry, &mut creator, &mut stake, 99);
    assert_eq!(result, Err(ErrorCode::InvalidArgument));
    assert_eq!(creator, creator_before);
    assert_eq!(stake, stake_before);
}

#[test]
fn oversized_reward_fails_with_overflow() {
    let registry = initialize(0, 1, 200, 50, 100, 60, 2, 3, 100);
    let mut creator = initialize_creator(0);
    let mut stake = empty_stake();
    stake.staked_amount = u64::MAX;
    let result = claim_rewards(&registry, &mut creator, &mut stake, SECONDS_PER_YEAR);
    assert_eq!(result, Err(ErrorCode::Overflow));
    assert_eq!(creator.accumulated_rewards, 0);
    assert_eq!(stake.last_claim_time, 0);
}

#[test]
fn reward_split_overflow_fails_with_overflow() {
    // staked = 10^15 at 1% over a year accrues 10^19 scaled units, which fits
    // a u64 but whose supporter split (* 60) does not.
    let registry = initialize(0, 1, 200, 50, 1, 60, 2, 3, 100);
    let mut creator = initialize_creator(0);
    let mut stake = empty_stake();
    stake.staked_amount = 1_000_000_000_000_000;
    let result = claim_rewards(&registry, &mut creator, &mut stake, SECONDS_PER_YEAR);
    assert_eq!(result, Err(ErrorCode::Overflow));
}

#[test]
fn accumulated_rewards_overflow_rejected_without_mutation() {
    let registry = test_registry();
    let mut creator = initialize_creator(0);
    let mut stake = empty_stake();
    support_creator(&registry, &mut creator, &mut stake, 7, 8, 1000, 0).unwrap();
    creator.accumulated_rewards = u64::MAX;
    let creator_before = creator;
    let stake_before = stake;
    let result = claim_rewards(&registry, &mut creator, &mut stake, SECONDS_PER_YEAR);
    assert_eq!(result, Err(ErrorCode::Overflow));
    assert_eq!(creator, creator_before);
    assert_eq!(stake, stake_before);
}

#[test]
fn zero_unstake_rejected_as_invalid_argument() {
    let registry = test_registry();
    let mut creator = initialize_creator(0);
    let mut stake = empty_stake();
    support_creator(&registry, &mut creator, &mut stake, 7, 8, 1000, 0).unwrap();
    let result = unstake(&registry, &mut creator, &mut stake, 0);
    assert_eq!(result, Err(ErrorCode::InvalidArgument));
    assert_eq!(stake.staked_amount, 300);
}

#[test]
fn unstake_ceiling_overflow_fails_with_overflow() {
    let registry = test_registry();
    let mut creator = initialize_creator(0);
    let mut stake = empty_stake();
    stake.staked_amount = u64::MAX;
    creator.total_staked = u64::MAX;
    let result = unstake(&registry, &mut creator, &mut stake, 1);
    assert_eq!(result, Err(ErrorCode::Overflow));
    assert_eq!(stake.staked_amount, u64::MAX);
}

#[test]
fn unstake_beyond_creator_total_fails_with_overflow() {
    // An inconsistent pair of accounts: the position claims more principal
    // than the creator's aggregate. The subtraction stays checked.
    let registry = initialize(0, 1, 200, 50, 10, 100, 2, 3, 100);
    let mut creator = initialize_creator(0);
    creator.total_staked = 10;
    let mut stake = empty_stake();
    stake.staked_amount = 1000;
    let result = unstake(&registry, &mut creator, &mut stake, 100);
    assert_eq!(result, Err(ErrorCode::Overflow));
    assert_eq!(creator.total_staked, 10);
    assert_eq!(stake.staked_amount, 1000);
}
