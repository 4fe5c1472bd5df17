use vstd::prelude::*;

verus! {

/// Global, effectively immutable configuration of the support program.
///
/// Account and mint identities are opaque numeric handles: the engine never
/// inspects them, it only records and compares them; the hosting environment
/// maps each handle to a real address.
#[derive(Clone, Copy, PartialEq, Eq, Structural, Debug)]
pub struct CreatorSupport {
    /// Parameter of the (currently unapplied) impact-multiplier curve.
    pub price_per_impact: u64,
    /// Identity of the administrator who created the registry.
    pub admin: u64,
    /// Parameter of the (currently unapplied) impact-multiplier curve.
    pub max_reward_multiplier: u64,
    /// Parameter of the (currently unapplied) impact-multiplier curve.
    pub scaling_factor: u64,
    /// Annual reward rate, in integer percent.
    pub apr: u64,
    /// Percentage (0-100) of a position's staked principal that is
    /// withdrawable at any one time.
    pub supporter_reward_ratio: u64,
    /// Identity of the reward token mint.
    pub reward_mint: u64,
    /// Identity of the stablecoin mint contributions are denominated in.
    pub stablecoin_mint: u64,
    /// Minimum total contribution required to open or extend a stake.
    pub min_stake_amount: u64,
}

/// Per-creator aggregate state.
#[derive(Clone, Copy, PartialEq, Eq, Structural, Debug)]
pub struct Creator {
    /// When the creator registered.
    pub registration_time: i64,
    /// Set once the account is created.
    pub exists: bool,
    /// Legacy supporter counter; never advanced by the engine.
    pub total_supporters: u32,
    /// Cumulative immediate allocations received.
    pub total_support_amount: u64,
    /// Sum of the staked principal of all open positions for this creator.
    pub total_staked: u64,
    /// Bookkeeping timestamp stamped at registration.
    pub last_reward_calculation_time: i64,
    /// Cumulative creator-side reward payouts.
    pub accumulated_rewards: u64,
    /// Count of distinct supporters, incremented at most once per supporter.
    pub total_unique_supporters: u32,
}

/// Per (supporter, creator) stake position.
#[derive(Clone, Copy, PartialEq, Eq, Structural, Debug)]
pub struct SupporterStake {
    /// Identity of the supporter.
    pub supporter: u64,
    /// Identity of the creator.
    pub creator: u64,
    /// Current outstanding staked principal.
    pub staked_amount: u64,
    /// Reset to the current time on every contribution.
    pub stake_start_time: i64,
    /// Time of the most recent reward computation; never moves backwards.
    pub last_claim_time: i64,
}

/// Creates the registry with the given program parameters.
pub fn initialize(
    price_per_impact: u64,
    admin: u64,
    max_reward_multiplier: u64,
    scaling_factor: u64,
    apr: u64,
    supporter_reward_ratio: u64,
    reward_mint: u64,
    stablecoin_mint: u64,
    min_stake_amount: u64,
) -> (registry: CreatorSupport)
    ensures
        registry == (CreatorSupport {
            price_per_impact,
            admin,
            max_reward_multiplier,
            scaling_factor,
            apr,
            supporter_reward_ratio,
            reward_mint,
            stablecoin_mint,
            min_stake_amount,
        }),
{
    CreatorSupport {
        price_per_impact,
        admin,
        max_reward_multiplier,
        scaling_factor,
        apr,
        supporter_reward_ratio,
        reward_mint,
        stablecoin_mint,
        min_stake_amount,
    }
}

/// Creates a creator account with all counters zeroed and both bookkeeping
/// timestamps stamped with the current time.
pub fn initialize_creator(now: i64) -> (creator: Creator)
    ensures
        creator == (Creator {
            registration_time: now,
            exists: true,
            total_supporters: 0,
            total_support_amount: 0,
            total_staked: 0,
            last_reward_calculation_time: now,
            accumulated_rewards: 0,
            total_unique_supporters: 0,
        }),
{
    Creator {
        registration_time: now,
        exists: true,
        total_supporters: 0,
        total_support_amount: 0,
        total_staked: 0,
        last_reward_calculation_time: now,
        accumulated_rewards: 0,
        total_unique_supporters: 0,
    }
}

} // verus!
