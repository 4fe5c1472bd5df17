use vstd::prelude::*;

verus! {

/// Why an operation was rejected. Every error aborts the whole operation:
/// the engine's functions guarantee that no state is mutated on failure.
#[derive(Clone, Copy, PartialEq, Eq, Structural, Debug)]
pub enum ErrorCode {
    /// A checked arithmetic step would wrap or underflow.
    Overflow,
    /// A caller-supplied value violates a basic precondition
    /// (zero withdrawal amount, clock running backwards).
    InvalidArgument,
    /// The percentage computation of the allocation split failed.
    InvalidPercentage,
    /// Contribution below the configured minimum, or the staked share
    /// of the contribution is zero.
    StakeTooSmall,
    /// Reserved for a future minimum-reward gate; never produced today.
    NoRewardsAvailable,
    /// Reserved for the hosting environment's vault bootstrap; never
    /// produced by the engine itself.
    VaultAlreadyInitialized,
    /// Requested withdrawal exceeds the position's current ceiling.
    UnstakeAmountTooLarge,
    /// Reserved for a future claim-cooldown gate; never produced today.
    ClaimTooEarly,
}

} // verus!
