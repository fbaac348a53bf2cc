use vstd::prelude::*;

verus! {

/// A classification bracket, determined by comparing a stake amount
/// against ascending thresholds, inclusive at the boundary.
#[derive(Clone, Copy, Debug, PartialEq, Eq, Structural)]
pub enum StakingTier {
    Bronze,
    Silver,
    Gold,
}

/// Three ascending tier cutoffs. A total exactly at a cutoff qualifies for
/// that tier, not the one below.
#[derive(Clone, Copy, Debug, PartialEq, Eq, Structural)]
pub struct TierThresholds {
    pub bronze: u64,
    pub silver: u64,
    pub gold: u64,
}

impl TierThresholds {
    /// The cutoffs ascend.
    pub open spec fn wf(self) -> bool {
        self.bronze <= self.silver <= self.gold
    }
}

/// The base percentage rate configured for each tier.
#[derive(Clone, Copy, Debug, PartialEq, Eq, Structural)]
pub struct TierRates {
    pub bronze: u64,
    pub silver: u64,
    pub gold: u64,
}

/// Multiplier (in percent) for the gold tier.
pub const MULTIPLIER_GOLD: u64 = 200;
/// Multiplier (in percent) for the silver tier.
pub const MULTIPLIER_SILVER: u64 = 150;
/// Multiplier (in percent) for the bronze tier.
pub const MULTIPLIER_BRONZE: u64 = 120;
/// Multiplier (in percent) below every tier: no bonus.
pub const MULTIPLIER_NONE: u64 = 100;

/// Seconds in a fixed 30-day month. Lock durations given in months are
/// converted with this deliberate simplification; they are not
/// calendar-accurate.
pub const SECONDS_PER_MONTH: u64 = 2_592_000;

/// Lock-duration cutoff (twelve 30-day months) for the 200% multiplier.
pub const LOCK_CUTOFF_LONG: u64 = 31_104_000;
/// Lock-duration cutoff (six 30-day months) for the 150% multiplier.
pub const LOCK_CUTOFF_MEDIUM: u64 = 15_552_000;
/// Lock-duration cutoff (three 30-day months) for the 120% multiplier.
pub const LOCK_CUTOFF_SHORT: u64 = 7_776_000;

/// The percentage multiplier earned by an account's cumulative stake:
/// the thresholds are tested top-down, inclusively.
pub open spec fn spec_stake_tier_multiplier(thresholds: TierThresholds, total_staked: u64) -> u64 {
    if total_staked >= thresholds.gold {
        MULTIPLIER_GOLD
    } else if total_staked >= thresholds.silver {
        MULTIPLIER_SILVER
    } else if total_staked >= thresholds.bronze {
        MULTIPLIER_BRONZE
    } else {
        MULTIPLIER_NONE
    }
}

/// Maps an account's cumulative stake to its percentage multiplier by
/// testing the gold, silver and bronze cutoffs top-down; a total exactly at
/// a cutoff earns that tier's multiplier.
pub fn stake_tier_multiplier(thresholds: &TierThresholds, total_staked: u64) -> (m: u64)
    ensures
        m == spec_stake_tier_multiplier(*thresholds, total_staked),
{
    if total_staked >= thresholds.gold {
        MULTIPLIER_GOLD
    } else if total_staked >= thresholds.silver {
        MULTIPLIER_SILVER
    } else if total_staked >= thresholds.bronze {
        MULTIPLIER_BRONZE
    } else {
        MULTIPLIER_NONE
    }
}

/// Every total at or above the gold cutoff earns exactly the gold
/// multiplier: the multiplier plateaus at 200% and never grows further.
pub proof fn lemma_stake_tier_multiplier_gold_plateau(thresholds: TierThresholds, total_staked: u64)
    requires
        total_staked >= thresholds.gold,
    ensures
        spec_stake_tier_multiplier(thresholds, total_staked) == MULTIPLIER_GOLD,
{
}

/// The percentage multiplier earned by a lock duration in seconds, tested
/// top-down over the twelve/six/three-month cutoffs, inclusively.
pub open spec fn spec_lock_time_multiplier(lock_duration: u64) -> u64 {
    if lock_duration >= LOCK_CUTOFF_LONG {
        MULTIPLIER_GOLD
    } else if lock_duration >= LOCK_CUTOFF_MEDIUM {
        MULTIPLIER_SILVER
    } else if lock_duration >= LOCK_CUTOFF_SHORT {
        MULTIPLIER_BRONZE
    } else {
        MULTIPLIER_NONE
    }
}

/// Maps a lock duration in seconds to its percentage multiplier: 200% at
/// twelve 30-day months or more, 150% at six, 120% at three, else 100%.
pub fn lock_time_multiplier(lock_duration: u64) -> (m: u64)
    ensures
        m == spec_lock_time_multiplier(lock_duration),
{
    if lock_duration >= LOCK_CUTOFF_LONG {
        MULTIPLIER_GOLD
    } else if lock_duration >= LOCK_CUTOFF_MEDIUM {
        MULTIPLIER_SILVER
    } else if lock_duration >= LOCK_CUTOFF_SHORT {
        MULTIPLIER_BRONZE
    } else {
        MULTIPLIER_NONE
    }
}

/// Converts a lock duration given in months to seconds, at a fixed 30-day
/// month.
pub fn months_to_seconds(months: u8) -> (s: u64)
    ensures
        s == months * SECONDS_PER_MONTH,
{
    (months as u64) * SECONDS_PER_MONTH
}

/// The tier bracket an account's cumulative stake falls in. Totals below
/// the bronze cutoff still classify as bronze: bronze is the floor tier.
pub open spec fn spec_staking_level(thresholds: TierThresholds, total_staked: u64) -> StakingTier {
    if total_staked >= thresholds.gold {
        StakingTier::Gold
    } else if total_staked >= thresholds.silver {
        StakingTier::Silver
    } else {
        StakingTier::Bronze
    }
}

/// Classifies an account's cumulative stake into a tier bracket by testing
/// the cutoffs top-down, inclusively.
pub fn calculate_staking_level(thresholds: &TierThresholds, total_staked: u64) -> (level: StakingTier)
    ensures
        level == spec_staking_level(*thresholds, total_staked),
{
    if total_staked >= thresholds.gold {
        StakingTier::Gold
    } else if total_staked >= thresholds.silver {
        StakingTier::Silver
    } else {
        StakingTier::Bronze
    }
}

} // verus!
