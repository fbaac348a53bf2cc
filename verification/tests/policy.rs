use staking_engine::tier::{
    StakingTier, TierThresholds, stake_tier_multiplier, lock_time_multiplier, months_to_seconds,
    calculate_staking_level, SECONDS_PER_MONTH, LOCK_CUTOFF_LONG, LOCK_CUTOFF_MEDIUM,
    LOCK_CUTOFF_SHORT,
};

fn default_thresholds() -> TierThresholds {
    TierThresholds { bronze: 500_000_000, silver: 5_000_000_000, gold: 50_000_000_000 }
}

#[test]
fn tier_multiplier_is_inclusive_at_each_cutoff() {
    let t = default_thresholds();
    assert_eq!(stake_tier_multiplier(&t, 50_000_000_000), 200);
    assert_eq!(stake_tier_multiplier(&t, 5_000_000_000), 150);
    assert_eq!(stake_tier_multiplier(&t, 500_000_000), 120);
    assert_eq!(stake_tier_multiplier(&t, 499_999_999), 100);
    assert_eq!(stake_tier_multiplier(&t, 0), 100);
}

#[test]
fn tier_multiplier_plateaus_at_gold() {
    let t = default_thresholds();
    assert_eq!(stake_tier_multiplier(&t, 50_000_000_000), 200);
    assert_eq!(stake_tier_multiplier(&t, 50_000_000_001), 200);
    assert_eq!(stake_tier_multiplier(&t, 123_456_789_000), 200);
    assert_eq!(stake_tier_multiplier(&t, u64::MAX), 200);
}

#[test]
fn tier_multiplier_between_cutoffs() {
    let t = default_thresholds();
    assert_eq!(stake_tier_multiplier(&t, 4_999_999_999), 120);
    assert_eq!(stake_tier_multiplier(&t, 49_999_999_999), 150);
}

#[test]
fn lock_multiplier_is_inclusive_at_each_cutoff() {
    assert_eq!(lock_time_multiplier(LOCK_CUTOFF_LONG), 200);
    assert_eq!(lock_time_multiplier(LOCK_CUTOFF_LONG - 1), 150);
    assert_eq!(lock_time_multiplier(LOCK_CUTOFF_MEDIUM), 150);
    assert_eq!(lock_time_multiplier(LOCK_CUTOFF_MEDIUM - 1), 120);
    assert_eq!(lock_time_multiplier(LOCK_CUTOFF_SHORT), 120);
    assert_eq!(lock_time_multiplier(LOCK_CUTOFF_SHORT - 1), 100);
    assert_eq!(lock_time_multiplier(0), 100);
    assert_eq!(lock_time_multiplier(u64::MAX), 200);
}

#[test]
fn months_convert_at_thirty_days() {
    assert_eq!(SECONDS_PER_MONTH, 30 * 24 * 60 * 60);
    assert_eq!(months_to_seconds(0), 0);
    assert_eq!(months_to_seconds(1), 2_592_000);
    assert_eq!(months_to_seconds(3), LOCK_CUTOFF_SHORT);
    assert_eq!(months_to_seconds(6), LOCK_CUTOFF_MEDIUM);
    assert_eq!(months_to_seconds(12), LOCK_CUTOFF_LONG);
    assert_eq!(months_to_seconds(255), 660_960_000);
}

#[test]
fn staking_level_classifies_inclusively_with_bronze_floor() {
    let t = default_thresholds();
    assert_eq!(calculate_staking_level(&t, 0), StakingTier::Bronze);
    assert_eq!(calculate_staking_level(&t, 499_999_999), StakingTier::Bronze);
    assert_eq!(calculate_staking_level(&t, 500_000_000), StakingTier::Bronze);
    assert_eq!(calculate_staking_level(&t, 5_000_000_000), StakingTier::Silver);
    assert_eq!(calculate_staking_level(&t, 50_000_000_000), StakingTier::Gold);
    assert_eq!(calculate_staking_level(&t, u64::MAX), StakingTier::Gold);
}
