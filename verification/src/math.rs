use vstd::prelude::*;

verus! {

/// Percent of a contribution paid out to the creator immediately.
pub const IMMEDIATE_SHARE_PERCENT: u64 = 70;

/// Percent of an accrued reward paid to the supporter; the creator
/// receives the exact remainder.
pub const SUPPORTER_REWARD_PERCENT: u64 = 60;

/// Denominator of every percentage in the engine.
pub const PERCENT_DENOMINATOR: u64 = 100;

/// Fixed-point precision factor applied before the final divisions of the
/// reward formula, so that integer division discards less precision.
pub const REWARD_SCALE: u64 = 1_000_000;

/// Seconds in the 365-day year the annual rate is quoted over.
pub const SECONDS_PER_YEAR: u64 = 31_536_000;

/// Share of a contribution paid out immediately: `floor(amount * 70 / 100)`.
pub open spec fn immediate_allocation_of(amount: int) -> int {
    amount * IMMEDIATE_SHARE_PERCENT / (PERCENT_DENOMINATOR as int)
}

/// Share of a contribution that is staked: the exact remainder of the
/// immediate share, so the two always add back up to the contribution.
pub open spec fn staked_allocation_of(amount: int) -> int {
    amount - immediate_allocation_of(amount)
}

/// Reward accrued by `staked` principal over `elapsed` seconds at annual
/// rate `apr` percent, in scaled reward units:
/// `floor(floor(staked * apr * elapsed * SCALE / SECONDS_PER_YEAR) / 100)`.
pub open spec fn reward_of(staked: int, apr: int, elapsed: int) -> int {
    staked * apr * elapsed * REWARD_SCALE / (SECONDS_PER_YEAR as int) / (
    PERCENT_DENOMINATOR as int)
}

/// Supporter's share of an accrued reward: `floor(reward * 60 / 100)`.
pub open spec fn supporter_share_of(reward: int) -> int {
    reward * SUPPORTER_REWARD_PERCENT / (PERCENT_DENOMINATOR as int)
}

/// Creator's share of an accrued reward: the exact remainder of the
/// supporter's share.
pub open spec fn creator_share_of(reward: int) -> int {
    reward - supporter_share_of(reward)
}

/// Ceiling on a single withdrawal from a position:
/// `floor(staked * ratio / 100)` of its current principal.
pub open spec fn max_withdrawable_of(staked: int, ratio: int) -> int {
    staked * ratio / (PERCENT_DENOMINATOR as int)
}

/// The product of two token amounts always fits the double-width integer
/// the reward chain is computed in.
pub proof fn lemma_mul_fits_u128(x: int, y: int)
    requires
        0 <= x <= u64::MAX,
        0 <= y <= u64::MAX,
    ensures
        0 <= x * y <= u128::MAX,
{
    assert(0 <= x * y <= (u64::MAX as int) * (u64::MAX as int)) by (nonlinear_arith)
        requires
            0 <= x <= u64::MAX,
            0 <= y <= u64::MAX,
    ;
}

/// A percentage share never exceeds the whole when the rate is at most the
/// denominator: `floor(value * percent / 100) <= value`.
pub proof fn lemma_percent_share_le(value: int, percent: int)
    requires
        0 <= value,
        0 <= percent <= PERCENT_DENOMINATOR,
    ensures
        0 <= value * percent / (PERCENT_DENOMINATOR as int) <= value,
{
    assert(0 <= value * percent / 100 <= value) by (nonlinear_arith)
        requires
            0 <= value,
            0 <= percent <= 100,
    ;
}

/// A strict percentage of a positive value is strictly below the whole:
/// `floor(value * percent / 100) < value` when `percent < 100`.
pub proof fn lemma_percent_share_lt(value: int, percent: int)
    requires
        0 < value,
        0 <= percent < PERCENT_DENOMINATOR,
    ensures
        0 <= value * percent / (PERCENT_DENOMINATOR as int) < value,
{
    assert(0 <= value * percent / 100 < value) by (nonlinear_arith)
        requires
            0 < value,
            0 <= percent < 100,
    ;
}

/// The immediate share never exceeds the contribution, so the staked
/// remainder is never negative.
pub proof fn lemma_immediate_le_amount(amount: int)
    requires
        0 <= amount,
    ensures
        0 <= immediate_allocation_of(amount) <= amount,
        0 <= staked_allocation_of(amount) <= amount,
{
    lemma_percent_share_le(amount, IMMEDIATE_SHARE_PERCENT as int);
}

/// A positive contribution always leaves a positive staked remainder,
/// because the immediate share rounds down.
pub proof fn lemma_staked_positive(amount: int)
    requires
        0 < amount,
    ensures
        1 <= staked_allocation_of(amount) <= amount,
{
    lemma_percent_share_lt(amount, IMMEDIATE_SHARE_PERCENT as int);
}

} // verus!
