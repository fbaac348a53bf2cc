use staking_engine::errors::ErrorCode;
use staking_engine::rate::{base_rate, resolve_effective_rate, DEFAULT_BASE_RATE};
use staking_engine::reward::{compute_reward, SECONDS_PER_YEAR};
use staking_engine::tier::{TierThresholds, TierRates};

#[test]
fn reward_formula_exact_one_year() {
    // 1,000,000 x 15 x 31,536,000 / 31,536,000 / 100 = 150,000 exactly.
    assert_eq!(compute_reward(1_000_000, 15, 31_536_000), Ok(150_000));
}

#[test]
fn reward_formula_order_is_left_to_right() {
    // Dividing by 100 before multiplying by the elapsed time would give 0;
    // the pinned order gives 1: 10 x 5 = 50, x 63,072,000 = 3,153,600,000,
    // / 31,536,000 = 100, / 100 = 1.
    assert_eq!(compute_reward(10, 5, 2 * SECONDS_PER_YEAR), Ok(1));
}

#[test]
fn reward_with_zero_elapsed_is_zero() {
    assert_eq!(compute_reward(1_000_000, 15, 0), Ok(0));
    assert_eq!(compute_reward(u64::MAX, 1, 0), Ok(0));
}

#[test]
fn reward_dust_is_truncated_away() {
    // 10 x 5 x 3,153,600 = 157,680,000, / 31,536,000 = 5, / 100 = 0.
    assert_eq!(compute_reward(10, 5, 3_153_600), Ok(0));
}

#[test]
fn reward_overflow_first_multiplication() {
    assert_eq!(compute_reward(u64::MAX, 2, 1), Err(ErrorCode::ArithmeticOverflow));
}

#[test]
fn reward_overflow_second_multiplication() {
    assert_eq!(compute_reward(2, 1, u64::MAX), Err(ErrorCode::ArithmeticOverflow));
}

#[test]
fn base_rate_picks_pool_tier_inclusively() {
    let t = TierThresholds { bronze: 500_000_000, silver: 5_000_000_000, gold: 50_000_000_000 };
    let r = TierRates { bronze: 5, silver: 10, gold: 15 };
    assert_eq!(base_rate(&t, &r, 0), DEFAULT_BASE_RATE);
    assert_eq!(base_rate(&t, &r, 499_999_999), DEFAULT_BASE_RATE);
    assert_eq!(base_rate(&t, &r, 500_000_000), 5);
    assert_eq!(base_rate(&t, &r, 5_000_000_000), 10);
    assert_eq!(base_rate(&t, &r, 49_999_999_999), 10);
    assert_eq!(base_rate(&t, &r, 50_000_000_000), 15);
}

#[test]
fn effective_rate_divides_after_each_multiplication() {
    // 15 x 150 = 2250, / 100 = 22, x 120 = 2640, / 100 = 26; a single
    // combined expression would give 27.
    assert_eq!(resolve_effective_rate(15, 150, 120), Ok(26));
    // The gold/gold corner: 15 x 200 = 3000, / 100 = 30, x 200 = 6000,
    // / 100 = 60.
    assert_eq!(resolve_effective_rate(15, 200, 200), Ok(60));
}

#[test]
fn effective_rate_overflow_is_reported() {
    assert_eq!(resolve_effective_rate(u64::MAX, 2, 100), Err(ErrorCode::ArithmeticOverflow));
    assert_eq!(resolve_effective_rate(u64::MAX, 100, 200), Err(ErrorCode::ArithmeticOverflow));
    // First step fits, second does not.
    assert_eq!(resolve_effective_rate(u64::MAX / 100, 100, 200), Err(ErrorCode::ArithmeticOverflow));
}

#[test]
fn error_messages_name_the_cause() {
    assert_eq!(ErrorCode::Unauthorized.message(), "Unauthorized access");
    assert_eq!(ErrorCode::InsufficientFunds.message(), "Insufficient funds");
    assert_eq!(ErrorCode::LockPeriodNotExpired.message(), "Lock period has not expired");
    assert_eq!(ErrorCode::NoRewardsToClaim.message(), "No rewards to claim");
    assert_eq!(ErrorCode::ArithmeticOverflow.message(), "Arithmetic overflow");
}
