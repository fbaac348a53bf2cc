use vstd::prelude::*;
use vstd::arithmetic::mul::lemma_mul_upper_bound;
use crate::errors::ErrorCode;

verus! {

/// Seconds in the fixed 365-day year the accrual formula divides by.
pub const SECONDS_PER_YEAR: u64 = 31_536_000;

/// The integer reward accrued by `principal` at percentage `rate` over
/// `elapsed` seconds, evaluated strictly left to right: multiply by the
/// rate, multiply by the elapsed time, divide by the seconds in a year,
/// divide by one hundred. The remainder each division drops ("dust") is
/// forfeited, never carried forward.
pub open spec fn spec_reward(principal: u64, rate: u64, elapsed: u64) -> int {
    principal * rate * elapsed / (SECONDS_PER_YEAR as int) / 100
}

/// Whether either multiplication of the accrual formula exceeds the
/// working 64-bit width.
pub open spec fn spec_reward_overflows(principal: u64, rate: u64, elapsed: u64) -> bool {
    ||| principal * rate > u64::MAX
    ||| principal * rate * elapsed > u64::MAX
}

/// Computes the reward in the fixed evaluation order, checking each
/// multiplication against the working 64-bit width through a widened
/// intermediate. An overflow aborts the whole computation: no wraparound,
/// no partial value.
pub fn compute_reward(principal: u64, rate: u64, elapsed: u64) -> (r: Result<u64, ErrorCode>)
    ensures
        match r {
            Ok(reward) => !spec_reward_overflows(principal, rate, elapsed)
                && reward == spec_reward(principal, rate, elapsed),
            Err(e) => spec_reward_overflows(principal, rate, elapsed)
                && e == ErrorCode::ArithmeticOverflow,
        },
{
    proof {
        lemma_mul_upper_bound(principal as int, u64::MAX as int, rate as int, u64::MAX as int);
    }
    let rated_wide: u128 = (principal as u128) * (rate as u128);
    if rated_wide > (u64::MAX as u128) {
        return Err(ErrorCode::ArithmeticOverflow);
    }
    let rated: u64 = rated_wide as u64;
    proof {
        lemma_mul_upper_bound(rated as int, u64::MAX as int, elapsed as int, u64::MAX as int);
    }
    let accrued_wide: u128 = (rated as u128) * (elapsed as u128);
    if accrued_wide > (u64::MAX as u128) {
        return Err(ErrorCode::ArithmeticOverflow);
    }
    Ok((accrued_wide as u64) / SECONDS_PER_YEAR / 100)
}

/// With no time elapsed nothing accrues: the formula yields exactly zero,
/// and (as long as scaling the principal by the rate fits the working
/// width) it does not overflow either.
pub proof fn lemma_zero_elapsed_yields_zero_reward(principal: u64, rate: u64)
    ensures
        spec_reward(principal, rate, 0) == 0,
        principal * rate <= u64::MAX ==> !spec_reward_overflows(principal, rate, 0),
{
    assert(principal * rate * 0 == 0);
}

} // verus!
