use creator_support::engine::claim_rewards;
use creator_support::engine::support_creator;
use creator_support::engine::unstake;
use creator_support::state::initialize;
use creator_support::state::initialize_creator;
use creator_support::state::CreatorSupport;
use creator_support::state::SupporterStake;

const SECONDS_PER_YEAR: i64 = 31_536_000;

fn test_registry() -> CreatorSupport {
    initialize(0, 1, 200, 50, 10, 60, 2, 3, 100)
}

fn empty_stake() -> SupporterStake {
    SupporterStake {
        supporter: 0,
        creator: 0,
        staked_amount: 0,
        stake_start_time: 0,
        last_claim_time: 0,
    }
}

#[test]
fn split_adds_back_to_contribution() {
    let registry = initialize(0, 1, 200, 50, 10, 60, 2, 3, 1);
    for amount in 1..=2000u64 {
        let mut creator = initialize_creator(0);
        let mut stake = empty_stake();
        let outcome =
            support_creator(&registry, &mut creator, &mut stake, 7, 8, amount, 0).unwrap();
        assert_eq!(
            outcome.immediate_allocation + outcome.staked_allocation,
            amount
        );
        assert_eq!(outcome.immediate_allocation, amount * 70 / 100);
        assert!(outcome.staked_allocation > 0);
    }
}

#[test]
fn reward_shares_add_back_to_reward() {
    let registry = initialize(0, 1, 200, 50, 7, 60, 2, 3, 1);
    for elapsed in [1i64, 13, 997, 86_400, 12_345_678, SECONDS_PER_YEAR] {
        let mut creator = initialize_creator(0);
        let mut stake = empty_stake();
        support_creator(&registry, &mut creator, &mut stake, 7, 8, 1111, 0).unwrap();
        let outcome = claim_rewards(&registry, &mut creator, &mut stake, elapsed).unwrap();
        assert_eq!(
            outcome.supporter_reward + outcome.creator_reward,
            outcome.reward_amount
        );
        assert_eq!(outcome.supporter_reward, outcome.reward_amount * 60 / 100);
    }
}

#[test]
fn creator_total_matches_sum_of_positions() {
    let registry = test_registry();
    let mut creator = initialize_creator(0);
    let mut first = empty_stake();
    let mut second = empty_stake();
    support_creator(&registry, &mut creator, &mut first, 7, 8, 1000, 0).unwrap();
    support_creator(&registry, &mut creator, &mut second, 9, 8, 500, 1).unwrap();
    support_creator(&registry, &mut creator, &mut first, 7, 8, 333, 2).unwrap();
    assert_eq!(
        creator.total_staked,
        first.staked_amount + second.staked_amount
    );
    unstake(&registry, &mut creator, &mut first, 100).unwrap();
    assert_eq!(
        creator.total_staked,
        first.staked_amount + second.staked_amount
    );
}

#[test]
fn unique_supporters_counted_once_over_many_operations() {
    let registry = test_registry();
    let mut creator = initialize_creator(0);
    let mut stake = empty_stake();
    for round in 0..10i64 {
        support_creator(&registry, &mut creator, &mut stake, 7, 8, 1000, round).unwrap();
    }
    assert_eq!(creator.total_unique_supporters, 1);
    // With a 60% ceiling the position can never be fully drained, so the
    // supporter can never be counted as new again.
    for _ in 0..10 {
        let ceiling = stake.staked_amount * 60 / 100;
        if ceiling == 0 {
            break;
        }
        unstake(&registry, &mut creator, &mut stake, ceiling).unwrap();
        assert!(stake.staked_amount > 0);
    }
    let outcome = support_creator(&registry, &mut creator, &mut stake, 7, 8, 1000, 99).unwrap();
    assert!(!outcome.is_new_supporter);
    assert_eq!(creator.total_unique_supporters, 1);
}

#[test]
fn every_unstake_respects_the_ceiling() {
    let registry = test_registry();
    let mut creator = initialize_creator(0);
    let mut stake = empty_stake();
    support_creator(&registry, &mut creator, &mut stake, 7, 8, 10_000, 0).unwrap();
    let mut remaining = stake.staked_amount;
    for amount in [1u64, 500, 750, 100] {
        let before = stake.staked_amount;
        let ceiling = before * 60 / 100;
        if amount <= ceiling {
            let withdrawn = unstake(&registry, &mut creator, &mut stake, amount).unwrap();
            assert_eq!(withdrawn, amount);
            remaining -= amount;
        } else {
            assert!(unstake(&registry, &mut creator, &mut stake, amount).is_err());
        }
        assert_eq!(stake.staked_amount, remaining);
    }
}

#[test]
fn claim_with_zero_elapsed_time_accrues_nothing() {
    let registry = test_registry();
    let mut creator = initialize_creator(0);
    let mut stake = empty_stake();
    support_creator(&registry, &mut creator, &mut stake, 7, 8, 1000, 40).unwrap();
    let outcome = claim_rewards(&registry, &mut creator, &mut stake, 40).unwrap();
    assert_eq!(outcome.reward_amount, 0);
    assert_eq!(outcome.supporter_reward, 0);
    assert_eq!(outcome.creator_reward, 0);
    assert_eq!(creator.accumulated_rewards, 0);
}

#[test]
fn second_claim_at_identical_timestamp_is_a_no_op() {
    let registry = test_registry();
    let mut creator = initialize_creator(0);
    let mut stake = empty_stake();
    support_creator(&registry, &mut creator, &mut stake, 7, 8, 1000, 0).unwrap();
    let first = claim_rewards(&registry, &mut creator, &mut stake, SECONDS_PER_YEAR).unwrap();
    assert_eq!(first.reward_amount, 30_000_000);
    let rewards_after_first = creator.accumulated_rewards;
    let stake_after_first = stake;
    let second = claim_rewards(&registry, &mut creator, &mut stake, SECONDS_PER_YEAR).unwrap();
    assert_eq!(second.reward_amount, 0);
    assert_eq!(second.supporter_reward, 0);
    assert_eq!(second.creator_reward, 0);
    assert_eq!(creator.accumulated_rewards, rewards_after_first);
    assert_eq!(stake, stake_after_first);
}
