use vstd::prelude::*;

use crate::engine::claim_applied;
use crate::engine::claim_check;
use crate::engine::creator_after_claim;
use crate::engine::creator_after_support;
use crate::engine::creator_after_unstake;
use crate::engine::stake_after_claim;
use crate::engine::stake_after_support;
use crate::engine::stake_after_unstake;
use crate::engine::support_applied;
use crate::engine::support_check;
use crate::engine::unstake_applied;
use crate::engine::unstake_check;
use crate::errors::ErrorCode;
use crate::math::creator_share_of;
use crate::math::immediate_allocation_of;
use crate::math::lemma_immediate_le_amount;
use crate::math::lemma_percent_share_le;
use crate::math::lemma_percent_share_lt;
use crate::math::lemma_staked_positive;
use crate::math::max_withdrawable_of;
use crate::math::reward_of;
use crate::math::staked_allocation_of;
use crate::math::supporter_share_of;
use crate::math::PERCENT_DENOMINATOR;
use crate::math::SUPPORTER_REWARD_PERCENT;
use crate::state::Creator;
use crate::state::CreatorSupport;
use crate::state::SupporterStake;

verus! {

/// Split completeness: a positive contribution is split without rounding
/// leakage — the immediate and staked shares add back up to the
/// contribution exactly, and the staked share is always positive.
pub proof fn lemma_split_completeness(amount: u64)
    requires
        0 < amount,
    ensures
        immediate_allocation_of(amount as int) + staked_allocation_of(amount as int) == amount,
        0 <= immediate_allocation_of(amount as int) < amount,
        1 <= staked_allocation_of(amount as int) <= amount,
{
    lemma_staked_positive(amount as int);
}

/// Reward split completeness: every accrued reward is split without
/// rounding leakage — the supporter's and the creator's shares add back up
/// to the reward exactly, and neither share exceeds the reward.
pub proof fn lemma_reward_split_completeness(reward: u64)
    ensures
        supporter_share_of(reward as int) + creator_share_of(reward as int) == reward,
        0 <= supporter_share_of(reward as int) <= reward,
        0 <= creator_share_of(reward as int) <= reward,
{
    lemma_percent_share_le(reward as int, SUPPORTER_REWARD_PERCENT as int);
}

/// Sum of the staked principal over a creator's positions.
pub open spec fn staked_sum(positions: Seq<SupporterStake>) -> int
    decreases positions.len(),
{
    if positions.len() == 0 {
        0
    } else {
        positions[0].staked_amount + staked_sum(positions.drop_first())
    }
}

/// Conservation invariant of a creator and its positions: the creator's
/// staked total equals the sum of the staked principal over all of the
/// creator's positions.
pub open spec fn conserved(creator: Creator, positions: Seq<SupporterStake>) -> bool {
    creator.total_staked == staked_sum(positions)
}

/// Replacing one position changes the sum by exactly the difference
/// between the new and the old principal at that index.
proof fn lemma_staked_sum_update(positions: Seq<SupporterStake>, i: int, stake: SupporterStake)
    requires
        0 <= i < positions.len(),
    ensures
        staked_sum(positions.update(i, stake)) == staked_sum(positions)
            - positions[i].staked_amount + stake.staked_amount,
    decreases positions.len(),
{
    if i == 0 {
        assert(positions.update(0, stake).drop_first() =~= positions.drop_first());
    } else {
        assert(positions.update(i, stake).drop_first() =~= positions.drop_first().update(
            i - 1,
            stake,
        ));
        lemma_staked_sum_update(positions.drop_first(), i - 1, stake);
    }
}

/// Conservation: a successful contribution applied to position `i`
/// preserves the conservation invariant. By induction over the calls, the
/// creator's staked total equals the sum over all positions after any
/// sequence of successful contributions.
pub proof fn lemma_support_preserves_conservation(
    registry: CreatorSupport,
    creator0: Creator,
    creator1: Creator,
    stake0: SupporterStake,
    stake1: SupporterStake,
    positions: Seq<SupporterStake>,
    i: int,
    supporter_key: u64,
    creator_key: u64,
    amount: u64,
    now: i64,
)
    requires
        conserved(creator0, positions),
        0 <= i < positions.len(),
        positions[i] == stake0,
        support_check(registry, creator0, stake0, amount) == Ok::<(), ErrorCode>(()),
        support_applied(
            creator0,
            creator1,
            stake0,
            stake1,
            supporter_key,
            creator_key,
            amount,
            now,
        ),
    ensures
        conserved(creator1, positions.update(i, stake1)),
{
    lemma_immediate_le_amount(amount as int);
    lemma_staked_sum_update(positions, i, stake1);
}

/// Conservation: a successful withdrawal applied to position `i` preserves
/// the conservation invariant, so the invariant holds after any sequence
/// of successful contributions and withdrawals.
pub proof fn lemma_unstake_preserves_conservation(
    registry: CreatorSupport,
    creator0: Creator,
    creator1: Creator,
    stake0: SupporterStake,
    stake1: SupporterStake,
    positions: Seq<SupporterStake>,
    i: int,
    amount: u64,
)
    requires
        conserved(creator0, positions),
        0 <= i < positions.len(),
        positions[i] == stake0,
        unstake_check(registry, creator0, stake0, amount) == Ok::<(), ErrorCode>(()),
        unstake_applied(creator0, creator1, stake0, stake1, amount),
    ensures
        conserved(creator1, positions.update(i, stake1)),
{
    lemma_staked_sum_update(positions, i, stake1);
}

/// One operation against a creator's ledger, addressed to one of the
/// creator's positions by its index.
pub enum CreatorOp {
    /// A contribution of `amount` to position `position` at time `now`.
    Support { position: int, supporter_key: u64, creator_key: u64, amount: u64, now: i64 },
    /// A reward claim on position `position` at time `now`.
    Claim { position: int, now: i64 },
    /// A withdrawal of `amount` from position `position`.
    Unstake { position: int, amount: u64 },
}

/// Whether one operation addresses a real position and passes its
/// operation's validation, i.e. whether the corresponding engine call
/// succeeds on this state.
pub open spec fn op_allowed(
    registry: CreatorSupport,
    creator: Creator,
    positions: Seq<SupporterStake>,
    op: CreatorOp,
) -> bool {
    match op {
        CreatorOp::Support { position, amount, .. } => {
            &&& 0 <= position < positions.len()
            &&& support_check(registry, creator, positions[position], amount)
                == Ok::<(), ErrorCode>(())
        },
        CreatorOp::Claim { position, now } => {
            &&& 0 <= position < positions.len()
            &&& claim_check(registry, creator, positions[position], now) == Ok::<(), ErrorCode>(())
        },
        CreatorOp::Unstake { position, amount } => {
            &&& 0 <= position < positions.len()
            &&& unstake_check(registry, creator, positions[position], amount)
                == Ok::<(), ErrorCode>(())
        },
    }
}

/// The creator account after one allowed operation.
pub open spec fn creator_after_op(
    registry: CreatorSupport,
    creator: Creator,
    positions: Seq<SupporterStake>,
    op: CreatorOp,
) -> Creator {
    match op {
        CreatorOp::Support { position, amount, .. } => creator_after_support(
            creator,
            positions[position],
            amount,
        ),
        CreatorOp::Claim { position, now } => creator_after_claim(
            registry,
            creator,
            positions[position],
            now,
        ),
        CreatorOp::Unstake { position, amount } => creator_after_unstake(creator, amount),
    }
}

/// The creator's positions after one allowed operation.
pub open spec fn positions_after_op(
    registry: CreatorSupport,
    creator: Creator,
    positions: Seq<SupporterStake>,
    op: CreatorOp,
) -> Seq<SupporterStake> {
    match op {
        CreatorOp::Support { position, supporter_key, creator_key, amount, now } =>
            positions.update(
            position,
            stake_after_support(positions[position], supporter_key, creator_key, amount, now),
        ),
        CreatorOp::Claim { position, now } => positions.update(
            position,
            stake_after_claim(positions[position], now),
        ),
        CreatorOp::Unstake { position, amount } => positions.update(
            position,
            stake_after_unstake(positions[position], amount),
        ),
    }
}

/// Whether every operation of the sequence, applied in order, is allowed
/// on the state the earlier operations produce.
pub open spec fn ops_allowed(
    registry: CreatorSupport,
    creator: Creator,
    positions: Seq<SupporterStake>,
    ops: Seq<CreatorOp>,
) -> bool
    decreases ops.len(),
{
    ops.len() == 0 || {
        &&& op_allowed(registry, creator, positions, ops[0])
        &&& ops_allowed(
            registry,
            creator_after_op(registry, creator, positions, ops[0]),
            positions_after_op(registry, creator, positions, ops[0]),
            ops.drop_first(),
        )
    }
}

/// The creator account and positions after a whole sequence of allowed
/// operations, applied in order.
pub open spec fn ledger_after_ops(
    registry: CreatorSupport,
    creator: Creator,
    positions: Seq<SupporterStake>,
    ops: Seq<CreatorOp>,
) -> (Creator, Seq<SupporterStake>)
    decreases ops.len(),
{
    if ops.len() == 0 {
        (creator, positions)
    } else {
        ledger_after_ops(
            registry,
            creator_after_op(registry, creator, positions, ops[0]),
            positions_after_op(registry, creator, positions, ops[0]),
            ops.drop_first(),
        )
    }
}

/// Conservation over whole histories: starting from any state where the
/// creator's staked total equals the sum over its positions, after any
/// sequence of successful contributions, claims and withdrawals the
/// creator's staked total still equals the sum over its positions.
pub proof fn lemma_conservation_after_any_sequence(
    registry: CreatorSupport,
    creator: Creator,
    positions: Seq<SupporterStake>,
    ops: Seq<CreatorOp>,
)
    requires
        conserved(creator, positions),
        ops_allowed(registry, creator, positions, ops),
    ensures
        conserved(
            ledger_after_ops(registry, creator, positions, ops).0,
            ledger_after_ops(registry, creator, positions, ops).1,
        ),
    decreases ops.len(),
{
    if ops.len() > 0 {
        let creator1 = creator_after_op(registry, creator, positions, ops[0]);
        let positions1 = positions_after_op(registry, creator, positions, ops[0]);
        match ops[0] {
            CreatorOp::Support { position, supporter_key, creator_key, amount, now } => {
                lemma_support_preserves_conservation(
                    registry,
                    creator,
                    creator1,
                    positions[position],
                    stake_after_support(
                        positions[position],
                        supporter_key,
                        creator_key,
                        amount,
                        now,
                    ),
                    positions,
                    position,
                    supporter_key,
                    creator_key,
                    amount,
                    now,
                );
            },
            CreatorOp::Claim { position, now } => {
                lemma_staked_sum_update(
                    positions,
                    position,
                    stake_after_claim(positions[position], now),
                );
            },
            CreatorOp::Unstake { position, amount } => {
                lemma_unstake_preserves_conservation(
                    registry,
                    creator,
                    creator1,
                    positions[position],
                    stake_after_unstake(positions[position], amount),
                    positions,
                    position,
                    amount,
                );
            },
        }
        lemma_conservation_after_any_sequence(registry, creator1, positions1, ops.drop_first());
    }
}

/// How many operations of the sequence are contributions to position `i`
/// that count their supporter as new, i.e. find the position's principal
/// at zero.
pub open spec fn new_supporter_count_at(
    registry: CreatorSupport,
    creator: Creator,
    positions: Seq<SupporterStake>,
    ops: Seq<CreatorOp>,
    i: int,
) -> int
    decreases ops.len(),
{
    if ops.len() == 0 {
        0
    } else {
        (match ops[0] {
            CreatorOp::Support { position, .. } => if position == i && positions[i].staked_amount
                == 0 {
                1int
            } else {
                0int
            },
            _ => 0int,
        }) + new_supporter_count_at(
            registry,
            creator_after_op(registry, creator, positions, ops[0]),
            positions_after_op(registry, creator, positions, ops[0]),
            ops.drop_first(),
            i,
        )
    }
}

/// While the withdrawal ratio is below one hundred percent, a position
/// that holds principal keeps holding principal through every allowed
/// operation, so no later contribution to it counts its supporter as new.
proof fn lemma_live_position_never_recounted(
    registry: CreatorSupport,
    creator: Creator,
    positions: Seq<SupporterStake>,
    ops: Seq<CreatorOp>,
    i: int,
)
    requires
        ops_allowed(registry, creator, positions, ops),
        0 <= i < positions.len(),
        0 < positions[i].staked_amount,
        registry.supporter_reward_ratio < PERCENT_DENOMINATOR,
    ensures
        new_supporter_count_at(registry, creator, positions, ops, i) == 0,
    decreases ops.len(),
{
    if ops.len() > 0 {
        match ops[0] {
            CreatorOp::Support { position, amount, .. } => {
                if position == i {
                    lemma_immediate_le_amount(amount as int);
                }
            },
            CreatorOp::Claim { .. } => {},
            CreatorOp::Unstake { position, amount } => {
                if position == i {
                    lemma_percent_share_lt(
                        positions[i].staked_amount as int,
                        registry.supporter_reward_ratio as int,
                    );
                }
            },
        }
        lemma_live_position_never_recounted(
            registry,
            creator_after_op(registry, creator, positions, ops[0]),
            positions_after_op(registry, creator, positions, ops[0]),
            ops.drop_first(),
            i,
        );
    }
}

/// Unique-supporter monotonicity over whole histories: while the
/// withdrawal ratio is below one hundred percent, any sequence of
/// successful operations counts the supporter of position `i` as new at
/// most once, however many contributions, claims and withdrawals it holds.
pub proof fn lemma_unique_supporter_counted_at_most_once(
    registry: CreatorSupport,
    creator: Creator,
    positions: Seq<SupporterStake>,
    ops: Seq<CreatorOp>,
    i: int,
)
    requires
        ops_allowed(registry, creator, positions, ops),
        0 <= i < positions.len(),
        registry.supporter_reward_ratio < PERCENT_DENOMINATOR,
    ensures
        new_supporter_count_at(registry, creator, positions, ops, i) <= 1,
    decreases ops.len(),
{
    if ops.len() > 0 {
        if 0 < positions[i].staked_amount {
            lemma_live_position_never_recounted(registry, creator, positions, ops, i);
        } else {
            let creator1 = creator_after_op(registry, creator, positions, ops[0]);
            let positions1 = positions_after_op(registry, creator, positions, ops[0]);
            match ops[0] {
                CreatorOp::Support { position, amount, .. } => {
                    if position == i {
                        lemma_immediate_le_amount(amount as int);
                        lemma_live_position_never_recounted(
                            registry,
                            creator1,
                            positions1,
                            ops.drop_first(),
                            i,
                        );
                    } else {
                        lemma_unique_supporter_counted_at_most_once(
                            registry,
                            creator1,
                            positions1,
                            ops.drop_first(),
                            i,
                        );
                    }
                },
                _ => {
                    lemma_unique_supporter_counted_at_most_once(
                        registry,
                        creator1,
                        positions1,
                        ops.drop_first(),
                        i,
                    );
                },
            }
        }
    }
}

/// Unique-supporter count: a contribution to a position that already holds
/// principal never advances the count, and leaves the position holding
/// principal.
pub proof fn lemma_returning_supporter_not_recounted(
    registry: CreatorSupport,
    creator0: Creator,
    creator1: Creator,
    stake0: SupporterStake,
    stake1: SupporterStake,
    supporter_key: u64,
    creator_key: u64,
    amount: u64,
    now: i64,
)
    requires
        support_check(registry, creator0, stake0, amount) == Ok::<(), ErrorCode>(()),
        support_applied(
            creator0,
            creator1,
            stake0,
            stake1,
            supporter_key,
            creator_key,
            amount,
            now,
        ),
        0 < stake0.staked_amount,
    ensures
        creator1.total_unique_supporters == creator0.total_unique_supporters,
        0 < stake1.staked_amount,
{
    lemma_immediate_le_amount(amount as int);
}

/// Unique-supporter count: a contribution that opens a position advances
/// the count by exactly one and leaves the position holding principal.
/// Together with [`lemma_returning_supporter_not_recounted`] and
/// [`lemma_unstake_keeps_position_live`], the count advances at most once
/// per distinct supporter while the withdrawal ratio is below one hundred
/// percent.
pub proof fn lemma_new_supporter_counted_once(
    registry: CreatorSupport,
    creator0: Creator,
    creator1: Creator,
    stake0: SupporterStake,
    stake1: SupporterStake,
    supporter_key: u64,
    creator_key: u64,
    amount: u64,
    now: i64,
)
    requires
        support_check(registry, creator0, stake0, amount) == Ok::<(), ErrorCode>(()),
        support_applied(
            creator0,
            creator1,
            stake0,
            stake1,
            supporter_key,
            creator_key,
            amount,
            now,
        ),
        stake0.staked_amount == 0,
    ensures
        creator1.total_unique_supporters == creator0.total_unique_supporters + 1,
        0 < stake1.staked_amount,
{
    lemma_immediate_le_amount(amount as int);
}

/// While the withdrawal ratio is below one hundred percent, a successful
/// withdrawal always leaves the position holding principal (the ceiling is
/// a strict fraction of it), so an already-counted supporter can never be
/// counted as new again.
pub proof fn lemma_unstake_keeps_position_live(
    registry: CreatorSupport,
    creator0: Creator,
    creator1: Creator,
    stake0: SupporterStake,
    stake1: SupporterStake,
    amount: u64,
)
    requires
        unstake_check(registry, creator0, stake0, amount) == Ok::<(), ErrorCode>(()),
        unstake_applied(creator0, creator1, stake0, stake1, amount),
        registry.supporter_reward_ratio < PERCENT_DENOMINATOR,
    ensures
        0 < stake1.staked_amount,
        creator1.total_unique_supporters == creator0.total_unique_supporters,
{
    lemma_percent_share_lt(
        stake0.staked_amount as int,
        registry.supporter_reward_ratio as int,
    );
}

/// Unstake ceiling: a successful withdrawal never exceeds the ceiling
/// computed from the principal before the call, and the principal after
/// the call is exactly the prior principal less the withdrawal.
pub proof fn lemma_unstake_ceiling(
    registry: CreatorSupport,
    creator0: Creator,
    creator1: Creator,
    stake0: SupporterStake,
    stake1: SupporterStake,
    amount: u64,
)
    requires
        unstake_check(registry, creator0, stake0, amount) == Ok::<(), ErrorCode>(()),
        unstake_applied(creator0, creator1, stake0, stake1, amount),
    ensures
        amount <= max_withdrawable_of(
            stake0.staked_amount as int,
            registry.supporter_reward_ratio as int,
        ),
        stake1.staked_amount == stake0.staked_amount - amount,
        0 <= stake1.staked_amount,
{
}

/// Accrual non-negativity: a claim is rejected as an invalid argument
/// exactly when the supplied clock lies before the position's last claim,
/// so the elapsed time of every accepted claim is non-negative.
pub proof fn lemma_accrual_never_negative(
    registry: CreatorSupport,
    creator: Creator,
    stake: SupporterStake,
    current_time: i64,
)
    ensures
        (current_time < stake.last_claim_time) <==> (claim_check(
            registry,
            creator,
            stake,
            current_time,
        ) == Err::<(), ErrorCode>(ErrorCode::InvalidArgument)),
        claim_check(registry, creator, stake, current_time) is Ok ==> current_time
            - stake.last_claim_time >= 0,
{
}

/// Idempotent zero-elapsed claim: after a successful claim, a second claim
/// at the identical timestamp is accepted, accrues a zero reward, and
/// changes nothing.
pub proof fn lemma_zero_elapsed_claim_is_noop(
    registry: CreatorSupport,
    creator0: Creator,
    creator1: Creator,
    creator2: Creator,
    stake0: SupporterStake,
    stake1: SupporterStake,
    stake2: SupporterStake,
    current_time: i64,
)
    requires
        claim_applied(registry, creator0, creator1, stake0, stake1, current_time),
        claim_applied(registry, creator1, creator2, stake1, stake2, current_time),
    ensures
        claim_check(registry, creator1, stake1, current_time) == Ok::<(), ErrorCode>(()),
        reward_of(
            stake1.staked_amount as int,
            registry.apr as int,
            current_time - stake1.last_claim_time,
        ) == 0,
        creator2 == creator1,
        stake2 == stake1,
{
    assert(stake1.last_claim_time == current_time);
    assert(reward_of(stake1.staked_amount as int, registry.apr as int, 0) == 0);
}

} // verus!
