use vstd::prelude::*;
use crate::tier::StakingTier;

verus! {

/// Audit record of a successful `stake`, handed to the external
/// observability sink. Nothing in the engine consumes it.
#[derive(Clone, Copy, Debug, PartialEq, Eq, Structural)]
pub struct StakeEvent {
    pub staker: u64,
    pub amount: u64,
    pub lock_duration: u64,
    pub effective_rate: u64,
    pub timestamp: u64,
}

/// Audit record of a successful `unstake`.
#[derive(Clone, Copy, Debug, PartialEq, Eq, Structural)]
pub struct UnstakeEvent {
    pub staker: u64,
    pub amount: u64,
    pub timestamp: u64,
}

/// Audit record of a successful `claim_rewards`; `rewards` is the amount
/// the external ledger is asked to mint.
#[derive(Clone, Copy, Debug, PartialEq, Eq, Structural)]
pub struct ClaimRewardsEvent {
    pub staker: u64,
    pub rewards: u64,
    pub timestamp: u64,
}

/// Audit record of an `update_staking_level` that changed the recorded
/// tier bracket.
#[derive(Clone, Copy, Debug, PartialEq, Eq, Structural)]
pub struct StakingLevelUpdatedEvent {
    pub staker: u64,
    pub old_level: StakingTier,
    pub new_level: StakingTier,
    pub timestamp: u64,
}

/// Audit record of a successful `update_tier_apy`.
#[derive(Clone, Copy, Debug, PartialEq, Eq, Structural)]
pub struct TierApyUpdatedEvent {
    pub tier: StakingTier,
    pub new_rate: u64,
    pub timestamp: u64,
}

/// Audit record of a successful `update_tier_thresholds`.
#[derive(Clone, Copy, Debug, PartialEq, Eq, Structural)]
pub struct TierThresholdsUpdatedEvent {
    pub bronze_threshold: u64,
    pub silver_threshold: u64,
    pub gold_threshold: u64,
    pub timestamp: u64,
}

} // verus!
