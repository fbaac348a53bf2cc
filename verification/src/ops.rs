use vstd::prelude::*;
use crate::errors::ErrorCode;
use crate::events::{
    StakeEvent, UnstakeEvent, ClaimRewardsEvent, StakingLevelUpdatedEvent, TierApyUpdatedEvent,
    TierThresholdsUpdatedEvent,
};
use crate::lock::{spec_unlock_eligible, is_unlock_eligible, spec_remaining_lock, remaining_lock_time};
use crate::rate::{spec_position_rate, spec_position_rate_overflows, base_rate, resolve_effective_rate};
use crate::records::{
    StakePosition, PoolAggregate, DEFAULT_BRONZE_THRESHOLD, DEFAULT_SILVER_THRESHOLD,
    DEFAULT_GOLD_THRESHOLD, DEFAULT_BRONZE_RATE, DEFAULT_SILVER_RATE, DEFAULT_GOLD_RATE,
};
use crate::reward::{spec_reward, spec_reward_overflows, compute_reward, lemma_zero_elapsed_yields_zero_reward};
use crate::tier::{
    StakingTier, TierThresholds, TierRates, stake_tier_multiplier, lock_time_multiplier,
    calculate_staking_level, spec_staking_level,
};

verus! {

/// Creates the pool record with the default cutoffs and base rates,
/// governed by `authority`. Runs once; the record lives for the system's
/// lifetime.
pub fn initialize(authority: u64) -> (pool: PoolAggregate)
    ensures
        pool.authority == authority,
        pool.total_staked == 0,
        pool.total_rewards_distributed == 0,
        pool.tier_thresholds == (TierThresholds {
            bronze: DEFAULT_BRONZE_THRESHOLD,
            silver: DEFAULT_SILVER_THRESHOLD,
            gold: DEFAULT_GOLD_THRESHOLD,
        }),
        pool.tier_base_rates == (TierRates {
            bronze: DEFAULT_BRONZE_RATE,
            silver: DEFAULT_SILVER_RATE,
            gold: DEFAULT_GOLD_RATE,
        }),
        pool.wf(),
{
    PoolAggregate {
        authority,
        total_staked: 0,
        total_rewards_distributed: 0,
        tier_thresholds: TierThresholds {
            bronze: DEFAULT_BRONZE_THRESHOLD,
            silver: DEFAULT_SILVER_THRESHOLD,
            gold: DEFAULT_GOLD_THRESHOLD,
        },
        tier_base_rates: TierRates {
            bronze: DEFAULT_BRONZE_RATE,
            silver: DEFAULT_SILVER_RATE,
            gold: DEFAULT_GOLD_RATE,
        },
    }
}

/// What `stake` does: after the external transfer-in of `amount`, the
/// principal and the pool total grow by it, the lock terms and claim clock
/// are overwritten (not merged) with the new call's values, and a freshly
/// resolved rate is frozen in. Any of the three checked steps exceeding
/// the working width aborts the whole operation.
pub open spec fn stake_outcome(
    pool: PoolAggregate,
    pos: StakePosition,
    amount: u64,
    lock_duration: u64,
    now: u64,
) -> Result<(PoolAggregate, StakePosition), ErrorCode> {
    if pos.principal + amount > u64::MAX {
        Err(ErrorCode::ArithmeticOverflow)
    } else if pool.total_staked + amount > u64::MAX {
        Err(ErrorCode::ArithmeticOverflow)
    } else if spec_position_rate_overflows(
        pool.tier_thresholds,
        pool.tier_base_rates,
        pos.cumulative_stake_for_tier,
        lock_duration,
    ) {
        Err(ErrorCode::ArithmeticOverflow)
    } else {
        Ok((
            PoolAggregate { total_staked: (pool.total_staked + amount) as u64, ..pool },
            StakePosition {
                principal: (pos.principal + amount) as u64,
                effective_rate: spec_position_rate(
                    pool.tier_thresholds,
                    pool.tier_base_rates,
                    pos.cumulative_stake_for_tier,
                    lock_duration,
                ) as u64,
                lock_duration: lock_duration,
                stake_time: now,
                last_claim_time: now,
                ..pos
            },
        ))
    }
}

/// Stakes `amount` more into the position after the external ledger has
/// transferred it in. The lock terms and the claim clock are overwritten
/// with the new call's values, so rewards accrued but unclaimed before
/// this call are silently forfeited: a deliberate, documented sharp edge.
/// The rate frozen in is resolved from the account's cumulative tier
/// stake and the new lock duration; the tier input itself is read, never
/// written. On any error nothing is mutated.
pub fn stake(
    pool: &mut PoolAggregate,
    pos: &mut StakePosition,
    amount: u64,
    lock_duration: u64,
    now: u64,
) -> (r: Result<StakeEvent, ErrorCode>)
    requires
        old(pos).last_claim_time <= now,
    ensures
        match r {
            Ok(ev) => {
                &&& stake_outcome(*old(pool), *old(pos), amount, lock_duration, now)
                    == Ok::<(PoolAggregate, StakePosition), ErrorCode>((*final(pool), *final(pos)))
                &&& ev == (StakeEvent {
                    staker: old(pos).owner,
                    amount: amount,
                    lock_duration: lock_duration,
                    effective_rate: final(pos).effective_rate,
                    timestamp: now,
                })
                &&& final(pos).wf()
            },
            Err(e) => {
                &&& stake_outcome(*old(pool), *old(pos), amount, lock_duration, now)
                    == Err::<(PoolAggregate, StakePosition), ErrorCode>(e)
                &&& *final(pool) == *old(pool)
                &&& *final(pos) == *old(pos)
            },
        },
        final(pool).total_staked - old(pool).total_staked == final(pos).principal - old(pos).principal,
{
    if amount > u64::MAX - pos.principal {
        return Err(ErrorCode::ArithmeticOverflow);
    }
    if amount > u64::MAX - pool.total_staked {
        return Err(ErrorCode::ArithmeticOverflow);
    }
    let base = base_rate(&pool.tier_thresholds, &pool.tier_base_rates, pos.cumulative_stake_for_tier);
    let tier_mult = stake_tier_multiplier(&pool.tier_thresholds, pos.cumulative_stake_for_tier);
    let time_mult = lock_time_multiplier(lock_duration);
    let rate = match resolve_effective_rate(base, tier_mult, time_mult) {
        Ok(rate) => rate,
        Err(e) => {
            return Err(e);
        },
    };
    pos.principal = pos.principal + amount;
    pos.effective_rate = rate;
    pos.lock_duration = lock_duration;
    pos.stake_time = now;
    pos.last_claim_time = now;
    pool.total_staked = pool.total_staked + amount;
    Ok(StakeEvent {
        staker: pos.owner,
        amount: amount,
        lock_duration: lock_duration,
        effective_rate: rate,
        timestamp: now,
    })
}

/// What `unstake` does: an amount above the principal is refused, a live
/// lock is refused, and otherwise the principal and the pool total shrink
/// by the amount while every other field -- the frozen rate and the lock
/// terms above all -- stays put.
pub open spec fn unstake_outcome(
    pool: PoolAggregate,
    pos: StakePosition,
    amount: u64,
    now: u64,
) -> Result<(PoolAggregate, StakePosition), ErrorCode> {
    if amount > pos.principal {
        Err(ErrorCode::InsufficientFunds)
    } else if !spec_unlock_eligible(pos, now) {
        Err(ErrorCode::LockPeriodNotExpired)
    } else {
        Ok((
            PoolAggregate { total_staked: (pool.total_staked - amount) as u64, ..pool },
            StakePosition { principal: (pos.principal - amount) as u64, ..pos },
        ))
    }
}

/// Withdraws `amount` of the principal once the lock has expired (the
/// expiry instant itself qualifies), handing the amount back for the
/// external ledger to transfer out. A partial unstake leaves the frozen
/// rate, the lock terms and the claim clock untouched. On any error
/// nothing is mutated.
pub fn unstake(
    pool: &mut PoolAggregate,
    pos: &mut StakePosition,
    amount: u64,
    now: u64,
) -> (r: Result<UnstakeEvent, ErrorCode>)
    requires
        old(pos).principal <= old(pool).total_staked,
    ensures
        match r {
            Ok(ev) => {
                &&& unstake_outcome(*old(pool), *old(pos), amount, now)
                    == Ok::<(PoolAggregate, StakePosition), ErrorCode>((*final(pool), *final(pos)))
                &&& ev == (UnstakeEvent { staker: old(pos).owner, amount: amount, timestamp: now })
            },
            Err(e) => {
                &&& unstake_outcome(*old(pool), *old(pos), amount, now)
                    == Err::<(PoolAggregate, StakePosition), ErrorCode>(e)
                &&& *final(pool) == *old(pool)
                &&& *final(pos) == *old(pos)
            },
        },
        final(pos).effective_rate == old(pos).effective_rate,
        final(pos).lock_duration == old(pos).lock_duration,
        final(pos).stake_time == old(pos).stake_time,
        final(pos).last_claim_time == old(pos).last_claim_time,
        final(pos).cumulative_stake_for_tier == old(pos).cumulative_stake_for_tier,
        final(pool).total_staked - old(pool).total_staked == final(pos).principal - old(pos).principal,
        old(pos).wf() ==> final(pos).wf(),
{
    if amount > pos.principal {
        return Err(ErrorCode::InsufficientFunds);
    }
    if !is_unlock_eligible(pos, now) {
        return Err(ErrorCode::LockPeriodNotExpired);
    }
    pos.principal = pos.principal - amount;
    pool.total_staked = pool.total_staked - amount;
    Ok(UnstakeEvent { staker: pos.owner, amount: amount, timestamp: now })
}

/// What `claim_rewards` does: the reward accrued since the last claim is
/// computed in the fixed order; an overflow of the formula or of the
/// pool's running total aborts, a reward of exactly zero is refused
/// rather than minted, and otherwise the claim clock advances to `now`
/// and the pool's distributed total grows by the reward.
pub open spec fn claim_outcome(
    pool: PoolAggregate,
    pos: StakePosition,
    now: u64,
) -> Result<(PoolAggregate, StakePosition, u64), ErrorCode>
    recommends
        pos.last_claim_time <= now,
{
    let elapsed = (now - pos.last_claim_time) as u64;
    if spec_reward_overflows(pos.principal, pos.effective_rate, elapsed) {
        Err(ErrorCode::ArithmeticOverflow)
    } else if spec_reward(pos.principal, pos.effective_rate, elapsed) == 0 {
        Err(ErrorCode::NoRewardsToClaim)
    } else if pool.total_rewards_distributed + spec_reward(pos.principal, pos.effective_rate, elapsed) > u64::MAX {
        Err(ErrorCode::ArithmeticOverflow)
    } else {
        Ok((
            PoolAggregate {
                total_rewards_distributed: (pool.total_rewards_distributed
                    + spec_reward(pos.principal, pos.effective_rate, elapsed)) as u64,
                ..pool
            },
            StakePosition { last_claim_time: now, ..pos },
            spec_reward(pos.principal, pos.effective_rate, elapsed) as u64,
        ))
    }
}

/// Claims the reward accrued since the last claim and hands back the
/// amount for the external ledger to mint. The lock is deliberately not
/// consulted: claims are allowed at any time. The claim clock only ever
/// moves forward, the principal and the frozen rate never change, and on
/// any error nothing is mutated. A claim clock in the future would be an
/// invariant violation, so it is asked away.
pub fn claim_rewards(
    pool: &mut PoolAggregate,
    pos: &mut StakePosition,
    now: u64,
) -> (r: Result<ClaimRewardsEvent, ErrorCode>)
    requires
        old(pos).last_claim_time <= now,
    ensures
        match r {
            Ok(ev) => {
                &&& claim_outcome(*old(pool), *old(pos), now)
                    == Ok::<(PoolAggregate, StakePosition, u64), ErrorCode>((*final(pool), *final(pos), ev.rewards))
                &&& ev.staker == old(pos).owner
                &&& ev.timestamp == now
                &&& ev.rewards > 0
            },
            Err(e) => {
                &&& claim_outcome(*old(pool), *old(pos), now)
                    == Err::<(PoolAggregate, StakePosition, u64), ErrorCode>(e)
                &&& *final(pool) == *old(pool)
                &&& *final(pos) == *old(pos)
            },
        },
        final(pos).principal == old(pos).principal,
        final(pos).effective_rate == old(pos).effective_rate,
        final(pos).lock_duration == old(pos).lock_duration,
        final(pos).stake_time == old(pos).stake_time,
        old(pos).last_claim_time <= final(pos).last_claim_time,
        final(pool).total_staked == old(pool).total_staked,
        old(pos).wf() ==> final(pos).wf(),
{
    let elapsed = now - pos.last_claim_time;
    let reward = match compute_reward(pos.principal, pos.effective_rate, elapsed) {
        Ok(reward) => reward,
        Err(e) => {
            return Err(e);
        },
    };
    if reward == 0 {
        return Err(ErrorCode::NoRewardsToClaim);
    }
    if reward > u64::MAX - pool.total_rewards_distributed {
        return Err(ErrorCode::ArithmeticOverflow);
    }
    pos.last_claim_time = now;
    pool.total_rewards_distributed = pool.total_rewards_distributed + reward;
    Ok(ClaimRewardsEvent { staker: pos.owner, rewards: reward, timestamp: now })
}

/// Re-classifies the position's tier bracket from its cumulative stake
/// and records it; an event is produced exactly when the bracket changed.
/// No other field moves.
pub fn update_staking_level(
    pool: &PoolAggregate,
    pos: &mut StakePosition,
    now: u64,
) -> (r: Option<StakingLevelUpdatedEvent>)
    ensures
        final(pos).level == spec_staking_level(pool.tier_thresholds, old(pos).cumulative_stake_for_tier),
        *final(pos) == (StakePosition { level: final(pos).level, ..*old(pos) }),
        match r {
            Some(ev) => {
                &&& old(pos).level != final(pos).level
                &&& ev == (StakingLevelUpdatedEvent {
                    staker: old(pos).owner,
                    old_level: old(pos).level,
                    new_level: final(pos).level,
                    timestamp: now,
                })
            },
            None => old(pos).level == final(pos).level,
        },
{
    let new_level = calculate_staking_level(&pool.tier_thresholds, pos.cumulative_stake_for_tier);
    if new_level != pos.level {
        let old_level = pos.level;
        pos.level = new_level;
        Some(StakingLevelUpdatedEvent {
            staker: pos.owner,
            old_level: old_level,
            new_level: new_level,
            timestamp: now,
        })
    } else {
        None
    }
}

/// What `update_tier_apy` does: only the configured authority may call
/// it, and on success exactly the selected tier's base rate is replaced.
pub open spec fn update_tier_apy_outcome(
    pool: PoolAggregate,
    caller: u64,
    tier: StakingTier,
    new_rate: u64,
) -> Result<PoolAggregate, ErrorCode> {
    if caller != pool.authority {
        Err(ErrorCode::Unauthorized)
    } else {
        let rates = match tier {
            StakingTier::Bronze => TierRates { bronze: new_rate, ..pool.tier_base_rates },
            StakingTier::Silver => TierRates { silver: new_rate, ..pool.tier_base_rates },
            StakingTier::Gold => TierRates { gold: new_rate, ..pool.tier_base_rates },
        };
        Ok(PoolAggregate { tier_base_rates: rates, ..pool })
    }
}

/// Replaces the selected tier's base rate, authority-gated. The change
/// steers only future rate resolutions: no position's frozen rate and no
/// pool total is touched.
pub fn update_tier_apy(
    pool: &mut PoolAggregate,
    caller: u64,
    tier: StakingTier,
    new_rate: u64,
    now: u64,
) -> (r: Result<TierApyUpdatedEvent, ErrorCode>)
    ensures
        match r {
            Ok(ev) => {
                &&& update_tier_apy_outcome(*old(pool), caller, tier, new_rate)
                    == Ok::<PoolAggregate, ErrorCode>(*final(pool))
                &&& ev == (TierApyUpdatedEvent { tier: tier, new_rate: new_rate, timestamp: now })
            },
            Err(e) => {
                &&& update_tier_apy_outcome(*old(pool), caller, tier, new_rate)
                    == Err::<PoolAggregate, ErrorCode>(e)
                &&& *final(pool) == *old(pool)
            },
        },
        final(pool).authority == old(pool).authority,
        final(pool).total_staked == old(pool).total_staked,
        final(pool).total_rewards_distributed == old(pool).total_rewards_distributed,
        final(pool).tier_thresholds == old(pool).tier_thresholds,
{
    if caller != pool.authority {
        return Err(ErrorCode::Unauthorized);
    }
    match tier {
        StakingTier::Bronze => {
            pool.tier_base_rates.bronze = new_rate;
        },
        StakingTier::Silver => {
            pool.tier_base_rates.silver = new_rate;
        },
        StakingTier::Gold => {
            pool.tier_base_rates.gold = new_rate;
        },
    }
    Ok(TierApyUpdatedEvent { tier: tier, new_rate: new_rate, timestamp: now })
}

/// What `update_tier_thresholds` does: only the configured authority may
/// call it, and on success exactly the three cutoffs are replaced.
pub open spec fn update_tier_thresholds_outcome(
    pool: PoolAggregate,
    caller: u64,
    bronze_threshold: u64,
    silver_threshold: u64,
    gold_threshold: u64,
) -> Result<PoolAggregate, ErrorCode> {
    if caller != pool.authority {
        Err(ErrorCode::Unauthorized)
    } else {
        Ok(PoolAggregate {
            tier_thresholds: TierThresholds {
                bronze: bronze_threshold,
                silver: silver_threshold,
                gold: gold_threshold,
            },
            ..pool
        })
    }
}

/// Replaces the pool's three ascending cutoffs, authority-gated. The
/// change steers only future classifications: no position's frozen rate
/// and no pool total is touched.
pub fn update_tier_thresholds(
    pool: &mut PoolAggregate,
    caller: u64,
    bronze_threshold: u64,
    silver_threshold: u64,
    gold_threshold: u64,
    now: u64,
) -> (r: Result<TierThresholdsUpdatedEvent, ErrorCode>)
    requires
        bronze_threshold <= silver_threshold <= gold_threshold,
    ensures
        match r {
            Ok(ev) => {
                &&& update_tier_thresholds_outcome(
                    *old(pool), caller, bronze_threshold, silver_threshold, gold_threshold)
                    == Ok::<PoolAggregate, ErrorCode>(*final(pool))
                &&& ev == (TierThresholdsUpdatedEvent {
                    bronze_threshold: bronze_threshold,
                    silver_threshold: silver_threshold,
                    gold_threshold: gold_threshold,
                    timestamp: now,
                })
                &&& final(pool).wf()
            },
            Err(e) => {
                &&& update_tier_thresholds_outcome(
                    *old(pool), caller, bronze_threshold, silver_threshold, gold_threshold)
                    == Err::<PoolAggregate, ErrorCode>(e)
                &&& *final(pool) == *old(pool)
            },
        },
        final(pool).authority == old(pool).authority,
        final(pool).total_staked == old(pool).total_staked,
        final(pool).total_rewards_distributed == old(pool).total_rewards_distributed,
        final(pool).tier_base_rates == old(pool).tier_base_rates,
{
    if caller != pool.authority {
        return Err(ErrorCode::Unauthorized);
    }
    pool.tier_thresholds.bronze = bronze_threshold;
    pool.tier_thresholds.silver = silver_threshold;
    pool.tier_thresholds.gold = gold_threshold;
    Ok(TierThresholdsUpdatedEvent {
        bronze_threshold: bronze_threshold,
        silver_threshold: silver_threshold,
        gold_threshold: gold_threshold,
        timestamp: now,
    })
}

/// The read-only projection `get_staking_info` answers with.
#[derive(Clone, Copy, Debug, PartialEq, Eq, Structural)]
pub struct StakingInfo {
    /// The position's current principal.
    pub total_staked: u64,
    /// The rate frozen in at stake time.
    pub effective_rate: u64,
    /// The tier bracket recorded for the account.
    pub level: StakingTier,
    /// The lock window in seconds, fixed at stake time.
    pub lock_duration: u64,
    /// The reward the position would earn if claimed now.
    pub pending_rewards: u64,
    /// The seconds still to wait before the current batch unlocks.
    pub lock_period_remaining: u64,
}

/// Projects a position into its current figures: principal, frozen rate,
/// recorded tier, a pending-reward estimate and the remaining lock time.
/// Mutates nothing; only an accrual formula overflowing the working width
/// makes it fail.
pub fn get_staking_info(pos: &StakePosition, now: u64) -> (r: Result<StakingInfo, ErrorCode>)
    requires
        pos.wf(),
        pos.last_claim_time <= now,
    ensures
        match r {
            Ok(info) => {
                &&& !spec_reward_overflows(
                    pos.principal, pos.effective_rate, (now - pos.last_claim_time) as u64)
                &&& info == (StakingInfo {
                    total_staked: pos.principal,
                    effective_rate: pos.effective_rate,
                    level: pos.level,
                    lock_duration: pos.lock_duration,
                    pending_rewards: spec_reward(
                        pos.principal, pos.effective_rate, (now - pos.last_claim_time) as u64) as u64,
                    lock_period_remaining: spec_remaining_lock(*pos, now) as u64,
                })
            },
            Err(e) => {
                &&& spec_reward_overflows(
                    pos.principal, pos.effective_rate, (now - pos.last_claim_time) as u64)
                &&& e == ErrorCode::ArithmeticOverflow
            },
        },
{
    let elapsed = now - pos.last_claim_time;
    let pending = match compute_reward(pos.principal, pos.effective_rate, elapsed) {
        Ok(pending) => pending,
        Err(e) => {
            return Err(e);
        },
    };
    let remaining = remaining_lock_time(pos, now);
    Ok(StakingInfo {
        total_staked: pos.principal,
        effective_rate: pos.effective_rate,
        level: pos.level,
        lock_duration: pos.lock_duration,
        pending_rewards: pending,
        lock_period_remaining: remaining,
    })
}

/// Claiming immediately -- with no time elapsed since the last claim --
/// always fails with `NoRewardsToClaim`, whatever the principal and rate.
/// The one proviso: scaling the principal by the rate must fit the
/// working width, else the strict evaluation order reports its overflow
/// before the zero reward is seen.
pub proof fn lemma_immediate_claim_yields_no_rewards(pool: PoolAggregate, pos: StakePosition, now: u64)
    requires
        now == pos.last_claim_time,
        pos.principal * pos.effective_rate <= u64::MAX,
    ensures
        claim_outcome(pool, pos, now)
            == Err::<(PoolAggregate, StakePosition, u64), ErrorCode>(ErrorCode::NoRewardsToClaim),
{
    lemma_zero_elapsed_yields_zero_reward(pos.principal, pos.effective_rate);
}

/// At `stake_time + lock_duration` exactly, an unstake within the
/// principal goes through: the lock boundary is inclusive.
pub proof fn lemma_unstake_at_expiry_succeeds(
    pool: PoolAggregate,
    pos: StakePosition,
    amount: u64,
    now: u64,
)
    requires
        amount <= pos.principal,
        now == pos.stake_time + pos.lock_duration,
    ensures
        unstake_outcome(pool, pos, amount, now) is Ok,
{
}

/// Any instant before `stake_time + lock_duration` -- one second before
/// it in particular -- refuses an unstake within the principal with
/// `LockPeriodNotExpired`.
pub proof fn lemma_unstake_before_expiry_fails(
    pool: PoolAggregate,
    pos: StakePosition,
    amount: u64,
    now: u64,
)
    requires
        amount <= pos.principal,
        now < pos.stake_time + pos.lock_duration,
    ensures
        unstake_outcome(pool, pos, amount, now)
            == Err::<(PoolAggregate, StakePosition), ErrorCode>(ErrorCode::LockPeriodNotExpired),
{
}

/// Re-staking on top of an existing position overwrites the lock terms
/// and the frozen rate with values computed from the new call alone, and
/// resets the claim clock to `now`: whatever reward had accrued since the
/// old claim clock is forfeited. The old lock terms, rate and claim clock
/// do not appear in the result at all.
pub proof fn lemma_restake_overwrites_terms(
    pool: PoolAggregate,
    pos: StakePosition,
    amount: u64,
    lock_duration: u64,
    now: u64,
)
    ensures
        stake_outcome(pool, pos, amount, lock_duration, now) matches Ok((new_pool, new_pos)) ==> {
            &&& new_pos.lock_duration == lock_duration
            &&& new_pos.stake_time == now
            &&& new_pos.last_claim_time == now
            &&& new_pos.effective_rate == spec_position_rate(
                pool.tier_thresholds,
                pool.tier_base_rates,
                pos.cumulative_stake_for_tier,
                lock_duration,
            )
            &&& new_pos.principal == pos.principal + amount
            &&& new_pos.cumulative_stake_for_tier == pos.cumulative_stake_for_tier
            &&& new_pos.owner == pos.owner
            &&& new_pos.level == pos.level
            &&& new_pool == (PoolAggregate { total_staked: (pool.total_staked + amount) as u64, ..pool })
        },
{
}

/// A partial unstake -- indeed any permitted unstake -- changes exactly
/// the principal and the pool's staked total, both by the amount; the
/// frozen rate, the lock terms, the claim clock and the tier input all
/// stay put.
pub proof fn lemma_partial_unstake_preserves_terms(
    pool: PoolAggregate,
    pos: StakePosition,
    amount: u64,
    now: u64,
)
    requires
        pos.principal <= pool.total_staked,
    ensures
        unstake_outcome(pool, pos, amount, now) matches Ok((new_pool, new_pos)) ==> {
            &&& new_pos.effective_rate == pos.effective_rate
            &&& new_pos.lock_duration == pos.lock_duration
            &&& new_pos.stake_time == pos.stake_time
            &&& new_pos.last_claim_time == pos.last_claim_time
            &&& new_pos.cumulative_stake_for_tier == pos.cumulative_stake_for_tier
            &&& new_pos.owner == pos.owner
            &&& new_pos.principal == pos.principal - amount
            &&& new_pool.total_staked == pool.total_staked - amount
            &&& new_pool.total_rewards_distributed == pool.total_rewards_distributed
            &&& new_pool.tier_thresholds == pool.tier_thresholds
            &&& new_pool.tier_base_rates == pool.tier_base_rates
        },
{
}

/// A claim reads nothing of the pool but its distributed total: two pools
/// agreeing on that figure give any position identical claim outcomes --
/// same reward, same resulting position, same error -- whatever their
/// cutoffs and base rates say. The rate a claim pays is the position's
/// frozen one alone.
pub proof fn lemma_claim_ignores_pool_config(
    pool1: PoolAggregate,
    pool2: PoolAggregate,
    pos: StakePosition,
    now: u64,
)
    requires
        pool1.total_rewards_distributed == pool2.total_rewards_distributed,
    ensures
        claim_outcome(pool1, pos, now) is Ok <==> claim_outcome(pool2, pos, now) is Ok,
        claim_outcome(pool1, pos, now) matches Ok((new_pool1, new_pos1, reward1))
            ==> (claim_outcome(pool2, pos, now) matches Ok((new_pool2, new_pos2, reward2))
                && new_pos1 == new_pos2 && reward1 == reward2),
        claim_outcome(pool1, pos, now) matches Err(e1)
            ==> claim_outcome(pool2, pos, now)
                == Err::<(PoolAggregate, StakePosition, u64), ErrorCode>(e1),
{
}

/// Admin updates never reach into positions: a successful threshold or
/// rate update replaces only the pool's configuration, so every position
/// claims exactly what it would have claimed before the update -- the
/// frozen `effective_rate` of positions staked earlier is never altered.
pub proof fn lemma_admin_updates_preserve_positions(
    pool: PoolAggregate,
    caller: u64,
    tier: StakingTier,
    new_rate: u64,
    bronze_threshold: u64,
    silver_threshold: u64,
    gold_threshold: u64,
    pos: StakePosition,
    now: u64,
)
    ensures
        update_tier_apy_outcome(pool, caller, tier, new_rate) matches Ok(updated) ==> {
            &&& (claim_outcome(updated, pos, now) is Ok <==> claim_outcome(pool, pos, now) is Ok)
            &&& (claim_outcome(pool, pos, now) matches Ok((new_pool1, new_pos1, reward1))
                ==> (claim_outcome(updated, pos, now) matches Ok((new_pool2, new_pos2, reward2))
                    && new_pos2 == new_pos1 && reward2 == reward1))
        },
        update_tier_thresholds_outcome(
            pool, caller, bronze_threshold, silver_threshold, gold_threshold)
            matches Ok(updated) ==> {
            &&& (claim_outcome(updated, pos, now) is Ok <==> claim_outcome(pool, pos, now) is Ok)
            &&& (claim_outcome(pool, pos, now) matches Ok((new_pool1, new_pos1, reward1))
                ==> (claim_outcome(updated, pos, now) matches Ok((new_pool2, new_pos2, reward2))
                    && new_pos2 == new_pos1 && reward2 == reward1))
        },
{
    match update_tier_apy_outcome(pool, caller, tier, new_rate) {
        Ok(updated) => {
            lemma_claim_ignores_pool_config(pool, updated, pos, now);
        },
        Err(_) => {},
    }
    match update_tier_thresholds_outcome(
        pool, caller, bronze_threshold, silver_threshold, gold_threshold) {
        Ok(updated) => {
            lemma_claim_ignores_pool_config(pool, updated, pos, now);
        },
        Err(_) => {},
    }
}

} // verus!
