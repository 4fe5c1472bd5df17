use vstd::prelude::*;

use crate::errors::ErrorCode;
use crate::math::immediate_allocation_of;
use crate::math::staked_allocation_of;
use crate::math::reward_of;
use crate::math::supporter_share_of;
use crate::math::creator_share_of;
use crate::math::max_withdrawable_of;
use crate::math::lemma_immediate_le_amount;
use crate::math::lemma_percent_share_le;
use crate::math::lemma_mul_fits_u128;
use crate::math::IMMEDIATE_SHARE_PERCENT;
use crate::math::SUPPORTER_REWARD_PERCENT;
use crate::math::PERCENT_DENOMINATOR;
use crate::math::REWARD_SCALE;
use crate::math::SECONDS_PER_YEAR;
use crate::state::Creator;
use crate::state::CreatorSupport;
use crate::state::SupporterStake;

verus! {

/// What a successful contribution asks the hosting environment to do:
/// transfer `immediate_allocation` stablecoins from the supporter to the
/// creator and `staked_allocation` from the supporter to the pooled vault.
#[derive(Clone, Copy, PartialEq, Eq, Structural, Debug)]
pub struct SupportOutcome {
    /// Stablecoin amount to transfer straight to the creator.
    pub immediate_allocation: u64,
    /// Stablecoin amount to transfer into the pooled vault.
    pub staked_allocation: u64,
    /// Whether this contribution opened the supporter's position, i.e. the
    /// position's principal was zero before the call.
    pub is_new_supporter: bool,
}

/// What a successful claim asks the hosting environment to do: mint
/// `supporter_reward` reward tokens to the supporter and `creator_reward`
/// to the creator.
#[derive(Clone, Copy, PartialEq, Eq, Structural, Debug)]
pub struct RewardOutcome {
    /// Total reward accrued since the last claim, in scaled reward units.
    pub reward_amount: u64,
    /// Share of the reward to mint to the supporter.
    pub supporter_reward: u64,
    /// Share of the reward to mint to the creator.
    pub creator_reward: u64,
}

/// The exact outcome of validating a contribution of `amount`, in the order
/// the checks are made: the split must not overflow, the staked share must
/// be positive and the contribution at least the configured minimum, and
/// every running total must accept its increment.
pub open spec fn support_check(
    registry: CreatorSupport,
    creator: Creator,
    stake: SupporterStake,
    amount: u64,
) -> Result<(), ErrorCode> {
    let immediate = immediate_allocation_of(amount as int);
    let staked = staked_allocation_of(amount as int);
    if amount * IMMEDIATE_SHARE_PERCENT > u64::MAX {
        Err(ErrorCode::InvalidPercentage)
    } else if staked <= 0 {
        Err(ErrorCode::StakeTooSmall)
    } else if amount < registry.min_stake_amount {
        Err(ErrorCode::StakeTooSmall)
    } else if creator.total_support_amount + immediate > u64::MAX {
        Err(ErrorCode::Overflow)
    } else if stake.staked_amount + staked > u64::MAX {
        Err(ErrorCode::Overflow)
    } else if creator.total_staked + staked > u64::MAX {
        Err(ErrorCode::Overflow)
    } else if stake.staked_amount == 0 && creator.total_unique_supporters + 1 > u32::MAX {
        Err(ErrorCode::Overflow)
    } else {
        Ok(())
    }
}

/// The creator account after a successful contribution of `amount` to the
/// position `stake0`: the immediate share joins the support total, the
/// staked share the staked total, and the unique-supporter count advances
/// exactly when the position's principal was zero before the call. Every
/// other field is unchanged.
pub open spec fn creator_after_support(creator0: Creator, stake0: SupporterStake, amount: u64) -> Creator {
    let immediate = immediate_allocation_of(amount as int);
    let staked = staked_allocation_of(amount as int);
    Creator {
        total_support_amount: (creator0.total_support_amount + immediate) as u64,
        total_staked: (creator0.total_staked + staked) as u64,
        total_unique_supporters: if stake0.staked_amount == 0 {
            (creator0.total_unique_supporters + 1) as u32
        } else {
            creator0.total_unique_supporters
        },
        ..creator0
    }
}

/// The stake position after a successful contribution of `amount` at time
/// `now`: the staked share joins the principal, both timestamps are reset
/// to `now`, and the two party identities are recorded.
pub open spec fn stake_after_support(
    stake0: SupporterStake,
    supporter_key: u64,
    creator_key: u64,
    amount: u64,
    now: i64,
) -> SupporterStake {
    SupporterStake {
        supporter: supporter_key,
        creator: creator_key,
        staked_amount: (stake0.staked_amount + staked_allocation_of(amount as int)) as u64,
        stake_start_time: now,
        last_claim_time: now,
    }
}

/// How a successful contribution of `amount` at time `now` rewrites the
/// creator account and the stake position.
pub open spec fn support_applied(
    creator0: Creator,
    creator1: Creator,
    stake0: SupporterStake,
    stake1: SupporterStake,
    supporter_key: u64,
    creator_key: u64,
    amount: u64,
    now: i64,
) -> bool {
    &&& creator1 == creator_after_support(creator0, stake0, amount)
    &&& stake1 == stake_after_support(stake0, supporter_key, creator_key, amount, now)
}

/// Applies a supporter's contribution to a creator.
///
/// The contribution is split exactly: `floor(amount * 70 / 100)` is paid out
/// immediately and the remainder is staked, so the two shares always add
/// back up to the contribution. On success the creator account and the
/// stake position are rewritten as [`support_applied`] states and the
/// returned [`SupportOutcome`] carries the two transfers the hosting
/// environment must perform. On failure nothing is mutated and the error is
/// exactly the one [`support_check`] assigns to the inputs.
pub fn support_creator(
    registry: &CreatorSupport,
    creator: &mut Creator,
    stake: &mut SupporterStake,
    supporter_key: u64,
    creator_key: u64,
    stablecoin_amount: u64,
    now: i64,
) -> (result: Result<SupportOutcome, ErrorCode>)
    ensures
        match result {
            Ok(outcome) => {
                &&& support_check(*registry, *old(creator), *old(stake), stablecoin_amount)
                    == Ok::<(), ErrorCode>(())
                &&& outcome.immediate_allocation == immediate_allocation_of(
                    stablecoin_amount as int,
                )
                &&& outcome.staked_allocation == staked_allocation_of(stablecoin_amount as int)
                &&& outcome.immediate_allocation + outcome.staked_allocation == stablecoin_amount
                &&& outcome.is_new_supporter == (old(stake).staked_amount == 0)
                &&& support_applied(
                    *old(creator),
                    *final(creator),
                    *old(stake),
                    *final(stake),
                    supporter_key,
                    creator_key,
                    stablecoin_amount,
                    now,
                )
            },
            Err(code) => {
                &&& support_check(*registry, *old(creator), *old(stake), stablecoin_amount)
                    == Err::<(), ErrorCode>(code)
                &&& *final(creator) == *old(creator)
                &&& *final(stake) == *old(stake)
            },
        },
{
    let scaled = match stablecoin_amount.checked_mul(IMMEDIATE_SHARE_PERCENT) {
        Some(scaled) => scaled,
        None => {
            return Err(ErrorCode::InvalidPercentage);
        },
    };
    let immediate_allocation = scaled / PERCENT_DENOMINATOR;
    proof {
        lemma_immediate_le_amount(stablecoin_amount as int);
    }
    let staked_allocation = stablecoin_amount - immediate_allocation;
    if staked_allocation == 0 {
        return Err(ErrorCode::StakeTooSmall);
    }
    if stablecoin_amount < registry.min_stake_amount {
        return Err(ErrorCode::StakeTooSmall);
    }
    let total_support_amount = match creator.total_support_amount.checked_add(
        immediate_allocation,
    ) {
        Some(total) => total,
        None => {
            return Err(ErrorCode::Overflow);
        },
    };
    let is_new_supporter = stake.staked_amount == 0;
    let staked_amount = match stake.staked_amount.checked_add(staked_allocation) {
        Some(total) => total,
        None => {
            return Err(ErrorCode::Overflow);
        },
    };
    let total_staked = match creator.total_staked.checked_add(staked_allocation) {
        Some(total) => total,
        None => {
            return Err(ErrorCode::Overflow);
        },
    };
    let total_unique_supporters = if is_new_supporter {
        match creator.total_unique_supporters.checked_add(1) {
            Some(count) => count,
            None => {
                return Err(ErrorCode::Overflow);
            },
        }
    } else {
        creator.total_unique_supporters
    };
    creator.total_support_amount = total_support_amount;
    creator.total_staked = total_staked;
    creator.total_unique_supporters = total_unique_supporters;
    stake.supporter = supporter_key;
    stake.creator = creator_key;
    stake.staked_amount = staked_amount;
    stake.stake_start_time = now;
    stake.last_claim_time = now;
    Ok(SupportOutcome { immediate_allocation, staked_allocation, is_new_supporter })
}

/// The exact outcome of validating a claim at `current_time`: the clock
/// must not have run backwards past the last claim, the widened reward
/// chain must not overflow, the reward must fit the token amount width,
/// and the creator's reward total must accept its share.
pub open spec fn claim_check(
    registry: CreatorSupport,
    creator: Creator,
    stake: SupporterStake,
    current_time: i64,
) -> Result<(), ErrorCode> {
    let elapsed = current_time - stake.last_claim_time;
    let scaled_rate = stake.staked_amount * registry.apr;
    let reward = reward_of(stake.staked_amount as int, registry.apr as int, elapsed);
    if elapsed < 0 {
        Err(ErrorCode::InvalidArgument)
    } else if scaled_rate * elapsed > u128::MAX {
        Err(ErrorCode::Overflow)
    } else if scaled_rate * elapsed * REWARD_SCALE > u128::MAX {
        Err(ErrorCode::Overflow)
    } else if reward > u64::MAX {
        Err(ErrorCode::Overflow)
    } else if reward * SUPPORTER_REWARD_PERCENT > u64::MAX {
        Err(ErrorCode::Overflow)
    } else if creator.accumulated_rewards + creator_share_of(reward) > u64::MAX {
        Err(ErrorCode::Overflow)
    } else {
        Ok(())
    }
}

/// The creator account after a successful claim at `current_time`: its
/// reward total grows by the creator's share of the reward the position
/// accrued; every other field is unchanged.
pub open spec fn creator_after_claim(
    registry: CreatorSupport,
    creator0: Creator,
    stake0: SupporterStake,
    current_time: i64,
) -> Creator {
    let reward = reward_of(
        stake0.staked_amount as int,
        registry.apr as int,
        current_time - stake0.last_claim_time,
    );
    Creator {
        accumulated_rewards: (creator0.accumulated_rewards + creator_share_of(reward)) as u64,
        ..creator0
    }
}

/// The stake position after a successful claim at `current_time`: only the
/// last claim time advances.
pub open spec fn stake_after_claim(stake0: SupporterStake, current_time: i64) -> SupporterStake {
    SupporterStake { last_claim_time: current_time, ..stake0 }
}

/// How a successful claim at `current_time` rewrites the creator account
/// and the stake position.
pub open spec fn claim_applied(
    registry: CreatorSupport,
    creator0: Creator,
    creator1: Creator,
    stake0: SupporterStake,
    stake1: SupporterStake,
    current_time: i64,
) -> bool {
    &&& creator1 == creator_after_claim(registry, creator0, stake0, current_time)
    &&& stake1 == stake_after_claim(stake0, current_time)
}

/// Computes and disburses the reward a position has accrued since its last
/// claim.
///
/// The reward is `floor(staked * apr * elapsed * 1_000_000 / 31_536_000 / 100)`,
/// computed in double-width arithmetic with every step checked; the
/// supporter receives `floor(reward * 60 / 100)` and the creator exactly the
/// remainder, so the two shares always add back up to the reward. A claim
/// with zero elapsed time succeeds and accrues zero. On success the state is
/// rewritten as [`claim_applied`] states and the returned [`RewardOutcome`]
/// carries the two mints the hosting environment must perform. On failure
/// nothing is mutated and the error is exactly the one [`claim_check`]
/// assigns to the inputs.
pub fn claim_rewards(
    registry: &CreatorSupport,
    creator: &mut Creator,
    stake: &mut SupporterStake,
    current_time: i64,
) -> (result: Result<RewardOutcome, ErrorCode>)
    ensures
        match result {
            Ok(outcome) => {
                &&& claim_check(*registry, *old(creator), *old(stake), current_time)
                    == Ok::<(), ErrorCode>(())
                &&& outcome.reward_amount == reward_of(
                    old(stake).staked_amount as int,
                    registry.apr as int,
                    current_time - old(stake).last_claim_time,
                )
                &&& outcome.supporter_reward == supporter_share_of(outcome.reward_amount as int)
                &&& outcome.creator_reward == creator_share_of(outcome.reward_amount as int)
                &&& outcome.supporter_reward + outcome.creator_reward == outcome.reward_amount
                &&& claim_applied(
                    *registry,
                    *old(creator),
                    *final(creator),
                    *old(stake),
                    *final(stake),
                    current_time,
                )
            },
            Err(code) => {
                &&& claim_check(*registry, *old(creator), *old(stake), current_time)
                    == Err::<(), ErrorCode>(code)
                &&& *final(creator) == *old(creator)
                &&& *final(stake) == *old(stake)
            },
        },
{
    if current_time < stake.last_claim_time {
        return Err(ErrorCode::InvalidArgument);
    }
    let elapsed = ((current_time as i128) - (stake.last_claim_time as i128)) as u128;
    let staked_wide = stake.staked_amount as u128;
    let apr_wide = registry.apr as u128;
    proof {
        lemma_mul_fits_u128(staked_wide as int, apr_wide as int);
    }
    let scaled_rate = staked_wide * apr_wide;
    let scaled_over_time = match scaled_rate.checked_mul(elapsed) {
        Some(product) => product,
        None => {
            return Err(ErrorCode::Overflow);
        },
    };
    let scaled_total = match scaled_over_time.checked_mul(REWARD_SCALE as u128) {
        Some(product) => product,
        None => {
            return Err(ErrorCode::Overflow);
        },
    };
    let reward_wide = scaled_total / (SECONDS_PER_YEAR as u128) / (PERCENT_DENOMINATOR as u128);
    if reward_wide > u64::MAX as u128 {
        return Err(ErrorCode::Overflow);
    }
    let reward_amount = reward_wide as u64;
    let supporter_scaled = match reward_amount.checked_mul(SUPPORTER_REWARD_PERCENT) {
        Some(product) => product,
        None => {
            return Err(ErrorCode::Overflow);
        },
    };
    let supporter_reward = supporter_scaled / PERCENT_DENOMINATOR;
    proof {
        lemma_percent_share_le(reward_amount as int, SUPPORTER_REWARD_PERCENT as int);
    }
    let creator_reward = reward_amount - supporter_reward;
    let accumulated_rewards = match creator.accumulated_rewards.checked_add(creator_reward) {
        Some(total) => total,
        None => {
            return Err(ErrorCode::Overflow);
        },
    };
    stake.last_claim_time = current_time;
    creator.accumulated_rewards = accumulated_rewards;
    Ok(RewardOutcome { reward_amount, supporter_reward, creator_reward })
}

/// The exact outcome of validating a withdrawal of `amount`: the ceiling
/// computation must not overflow, the amount must be within the ceiling and
/// positive, and both running totals must cover the subtraction.
pub open spec fn unstake_check(
    registry: CreatorSupport,
    creator: Creator,
    stake: SupporterStake,
    amount: u64,
) -> Result<(), ErrorCode> {
    let ceiling = max_withdrawable_of(
        stake.staked_amount as int,
        registry.supporter_reward_ratio as int,
    );
    if stake.staked_amount * registry.supporter_reward_ratio > u64::MAX {
        Err(ErrorCode::Overflow)
    } else if amount > ceiling {
        Err(ErrorCode::UnstakeAmountTooLarge)
    } else if amount == 0 {
        Err(ErrorCode::InvalidArgument)
    } else if stake.staked_amount < amount {
        Err(ErrorCode::Overflow)
    } else if creator.total_staked < amount {
        Err(ErrorCode::Overflow)
    } else {
        Ok(())
    }
}

/// The creator account after a successful withdrawal of `amount`: the
/// amount leaves the staked total; every other field is unchanged.
pub open spec fn creator_after_unstake(creator0: Creator, amount: u64) -> Creator {
    Creator { total_staked: (creator0.total_staked - amount) as u64, ..creator0 }
}

/// The stake position after a successful withdrawal of `amount`: the
/// amount leaves the principal; every other field is unchanged.
pub open spec fn stake_after_unstake(stake0: SupporterStake, amount: u64) -> SupporterStake {
    SupporterStake { staked_amount: (stake0.staked_amount - amount) as u64, ..stake0 }
}

/// How a successful withdrawal of `amount` rewrites the creator account
/// and the stake position.
pub open spec fn unstake_applied(
    creator0: Creator,
    creator1: Creator,
    stake0: SupporterStake,
    stake1: SupporterStake,
    amount: u64,
) -> bool {
    &&& creator1 == creator_after_unstake(creator0, amount)
    &&& stake1 == stake_after_unstake(stake0, amount)
}

/// Withdraws part of a position's staked principal.
///
/// A withdrawal is capped at `floor(staked_amount * ratio / 100)` of the
/// position's current principal, recomputed from the remaining principal on
/// every call. On success the state is rewritten as [`unstake_applied`]
/// states and the returned amount is the transfer the hosting environment
/// must perform from the pooled vault back to the supporter. On failure
/// nothing is mutated and the error is exactly the one [`unstake_check`]
/// assigns to the inputs.
pub fn unstake(
    registry: &CreatorSupport,
    creator: &mut Creator,
    stake: &mut SupporterStake,
    amount: u64,
) -> (result: Result<u64, ErrorCode>)
    ensures
        match result {
            Ok(withdrawn) => {
                &&& unstake_check(*registry, *old(creator), *old(stake), amount)
                    == Ok::<(), ErrorCode>(())
                &&& withdrawn == amount
                &&& amount <= max_withdrawable_of(
                    old(stake).staked_amount as int,
                    registry.supporter_reward_ratio as int,
                )
                &&& unstake_applied(
                    *old(creator),
                    *final(creator),
                    *old(stake),
                    *final(stake),
                    amount,
                )
            },
            Err(code) => {
                &&& unstake_check(*registry, *old(creator), *old(stake), amount)
                    == Err::<(), ErrorCode>(code)
                &&& *final(creator) == *old(creator)
                &&& *final(stake) == *old(stake)
            },
        },
{
    let scaled = match stake.staked_amount.checked_mul(registry.supporter_reward_ratio) {
        Some(scaled) => scaled,
        None => {
            return Err(ErrorCode::Overflow);
        },
    };
    let max_unstakeable = scaled / PERCENT_DENOMINATOR;
    if amount > max_unstakeable {
        return Err(ErrorCode::UnstakeAmountTooLarge);
    }
    if amount == 0 {
        return Err(ErrorCode::InvalidArgument);
    }
    let staked_amount = match stake.staked_amount.checked_sub(amount) {
        Some(remaining) => remaining,
        None => {
            return Err(ErrorCode::Overflow);
        },
    };
    let total_staked = match creator.total_staked.checked_sub(amount) {
        Some(remaining) => remaining,
        None => {
            return Err(ErrorCode::Overflow);
        },
    };
    stake.staked_amount = staked_amount;
    creator.total_staked = total_staked;
    Ok(amount)
}

} // verus!
