use vstd::prelude::*;
use vstd::arithmetic::mul::lemma_mul_upper_bound;
use crate::errors::ErrorCode;
use crate::tier::{TierThresholds, TierRates, spec_stake_tier_multiplier, spec_lock_time_multiplier};

verus! {

/// Base rate (percent) for accounts below the bronze cutoff.
pub const DEFAULT_BASE_RATE: u64 = 5;

/// The pool-level base rate earned by an account's cumulative stake,
/// chosen by the same inclusive top-down classification over the pool's
/// own cutoffs; below bronze a fixed default applies.
pub open spec fn spec_base_rate(thresholds: TierThresholds, rates: TierRates, total_staked: u64) -> u64 {
    if total_staked >= thresholds.gold {
        rates.gold
    } else if total_staked >= thresholds.silver {
        rates.silver
    } else if total_staked >= thresholds.bronze {
        rates.bronze
    } else {
        DEFAULT_BASE_RATE
    }
}

/// Picks the pool tier's configured base rate for an account's cumulative
/// stake, testing the cutoffs top-down, inclusively. A flat-rate pool
/// skips this step and hands its single configured rate straight to
/// `resolve_effective_rate`.
pub fn base_rate(thresholds: &TierThresholds, rates: &TierRates, total_staked: u64) -> (b: u64)
    ensures
        b == spec_base_rate(*thresholds, *rates, total_staked),
{
    if total_staked >= thresholds.gold {
        rates.gold
    } else if total_staked >= thresholds.silver {
        rates.silver
    } else if total_staked >= thresholds.bronze {
        rates.bronze
    } else {
        DEFAULT_BASE_RATE
    }
}

/// The effective annualized rate: the base rate scaled by the two
/// multipliers, dividing after each multiplication (two sequential
/// multiply-then-integer-divide steps, never one combined expression), so
/// the rounding of each step is pinned down.
pub open spec fn spec_effective_rate(base: u64, tier_multiplier: u64, time_multiplier: u64) -> int {
    base * tier_multiplier / 100 * time_multiplier / 100
}

/// Whether either multiplication of the rate resolution exceeds the
/// working 64-bit width.
pub open spec fn spec_effective_rate_overflows(base: u64, tier_multiplier: u64, time_multiplier: u64) -> bool {
    ||| base * tier_multiplier > u64::MAX
    ||| base * tier_multiplier / 100 * time_multiplier > u64::MAX
}

/// Combines a base rate with the tier and lock-duration multipliers into
/// the single effective rate that `stake` freezes into a position. Each
/// multiplication is checked against the working 64-bit width through a
/// widened intermediate; an overflow aborts with no value produced.
pub fn resolve_effective_rate(base: u64, tier_multiplier: u64, time_multiplier: u64) -> (r: Result<u64, ErrorCode>)
    ensures
        match r {
            Ok(rate) => !spec_effective_rate_overflows(base, tier_multiplier, time_multiplier)
                && rate == spec_effective_rate(base, tier_multiplier, time_multiplier),
            Err(e) => spec_effective_rate_overflows(base, tier_multiplier, time_multiplier)
                && e == ErrorCode::ArithmeticOverflow,
        },
{
    proof {
        lemma_mul_upper_bound(base as int, u64::MAX as int, tier_multiplier as int, u64::MAX as int);
    }
    let scaled_wide: u128 = (base as u128) * (tier_multiplier as u128);
    if scaled_wide > (u64::MAX as u128) {
        return Err(ErrorCode::ArithmeticOverflow);
    }
    let tier_scaled: u64 = (scaled_wide as u64) / 100;
    proof {
        lemma_mul_upper_bound(tier_scaled as int, u64::MAX as int, time_multiplier as int, u64::MAX as int);
    }
    let final_wide: u128 = (tier_scaled as u128) * (time_multiplier as u128);
    if final_wide > (u64::MAX as u128) {
        return Err(ErrorCode::ArithmeticOverflow);
    }
    Ok((final_wide as u64) / 100)
}

/// The effective rate a stake call freezes into a position: the tiered
/// base rate scaled by the stake-tier and lock-duration multipliers.
pub open spec fn spec_position_rate(
    thresholds: TierThresholds,
    rates: TierRates,
    total_staked_for_account: u64,
    lock_duration: u64,
) -> int {
    spec_effective_rate(
        spec_base_rate(thresholds, rates, total_staked_for_account),
        spec_stake_tier_multiplier(thresholds, total_staked_for_account),
        spec_lock_time_multiplier(lock_duration),
    )
}

/// Whether resolving a position's rate exceeds the working 64-bit width.
pub open spec fn spec_position_rate_overflows(
    thresholds: TierThresholds,
    rates: TierRates,
    total_staked_for_account: u64,
    lock_duration: u64,
) -> bool {
    spec_effective_rate_overflows(
        spec_base_rate(thresholds, rates, total_staked_for_account),
        spec_stake_tier_multiplier(thresholds, total_staked_for_account),
        spec_lock_time_multiplier(lock_duration),
    )
}

} // verus!
