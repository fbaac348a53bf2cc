use vstd::prelude::*;
use crate::tier::{StakingTier, TierThresholds, TierRates};

verus! {

/// Default bronze cutoff installed at pool initialization.
pub const DEFAULT_BRONZE_THRESHOLD: u64 = 500_000_000;
/// Default silver cutoff installed at pool initialization.
pub const DEFAULT_SILVER_THRESHOLD: u64 = 5_000_000_000;
/// Default gold cutoff installed at pool initialization.
pub const DEFAULT_GOLD_THRESHOLD: u64 = 50_000_000_000;

/// Default bronze base rate (percent) installed at pool initialization.
pub const DEFAULT_BRONZE_RATE: u64 = 5;
/// Default silver base rate (percent) installed at pool initialization.
pub const DEFAULT_SILVER_RATE: u64 = 10;
/// Default gold base rate (percent) installed at pool initialization.
pub const DEFAULT_GOLD_RATE: u64 = 15;

/// One staker's record in a pool, created on the first stake and kept
/// addressable forever (a drained position with zero principal stays and
/// can be staked again). The engine owns every mutation of it.
#[derive(Clone, Copy, Debug, PartialEq, Eq, Structural)]
pub struct StakePosition {
    /// The staker's identity, an opaque token handed in by the external
    /// capability-check service.
    pub owner: u64,
    /// The amount currently staked, excluding any pending reward.
    pub principal: u64,
    /// Running total used only to classify this account's own tier
    /// bracket; distinct from `principal`, which shrinks on a partial
    /// unstake. The engine deliberately reads it and never writes it,
    /// so keeping it up to date is the storage layer's business; left
    /// alone it stays zero and every classification lands on the floor
    /// tier.
    pub cumulative_stake_for_tier: u64,
    /// The annualized percentage rate frozen in at stake time, already
    /// incorporating the tier and lock-duration multipliers. Recomputed
    /// only by the next `stake` call, never by `claim_rewards` or
    /// `unstake`.
    pub effective_rate: u64,
    /// The tier bracket recorded by the last `update_staking_level` call.
    pub level: StakingTier,
    /// The lock window in seconds, fixed at stake time.
    pub lock_duration: u64,
    /// Timestamp of the first or most recent stake.
    pub stake_time: u64,
    /// Timestamp of the last claim; moves only forward.
    pub last_claim_time: u64,
}

impl StakePosition {
    /// The claim clock never lags the stake clock: both are set to the
    /// same instant by `stake`, and only `claim_rewards` moves the former,
    /// forward.
    pub open spec fn wf(self) -> bool {
        self.stake_time <= self.last_claim_time
    }

    /// A fresh, empty position for `owner`: nothing staked, no lock, the
    /// floor tier.
    pub fn new(owner: u64) -> (pos: StakePosition)
        ensures
            pos.owner == owner,
            pos.principal == 0,
            pos.cumulative_stake_for_tier == 0,
            pos.effective_rate == 0,
            pos.level == StakingTier::Bronze,
            pos.lock_duration == 0,
            pos.stake_time == 0,
            pos.last_claim_time == 0,
            pos.wf(),
    {
        StakePosition {
            owner,
            principal: 0,
            cumulative_stake_for_tier: 0,
            effective_rate: 0,
            level: StakingTier::Bronze,
            lock_duration: 0,
            stake_time: 0,
            last_claim_time: 0,
        }
    }
}

/// The singleton record of one pool, created once at initialization and
/// alive for the system's lifetime.
#[derive(Clone, Copy, Debug, PartialEq, Eq, Structural)]
pub struct PoolAggregate {
    /// The identity allowed to run the admin operations.
    pub authority: u64,
    /// The sum of all live positions' principal.
    pub total_staked: u64,
    /// Every reward ever minted through this pool.
    pub total_rewards_distributed: u64,
    /// The ascending cutoffs that classify stake totals into tiers.
    pub tier_thresholds: TierThresholds,
    /// The admin-mutable base percentage rate of each tier.
    pub tier_base_rates: TierRates,
}

impl PoolAggregate {
    /// The configured cutoffs ascend.
    pub open spec fn wf(self) -> bool {
        self.tier_thresholds.wf()
    }
}

} // verus!
