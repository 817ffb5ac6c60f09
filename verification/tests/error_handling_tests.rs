use simple_vault::math::{SafeCast, SafeMath};
use simple_vault::vault_math::{
    calculate_assets, calculate_management_fee, calculate_pending_rewards, calculate_rebase_factor,
    calculate_rewards_per_share, calculate_shares, calculate_shares_for_assets,
};

#[test]
fn test_all_error_conditions() {
    // Overflow
    assert!(u64::MAX.safe_add(1).is_err());
    assert!(u64::MAX.safe_mul(2).is_err());

    // Division by zero
    assert!(10u64.safe_div(0).is_err());
    assert!(calculate_shares(1000, 1000, 0).is_err());

    // A zero amount converts to zero shares
    assert_eq!(calculate_shares(0, 1000, 1000).unwrap(), 0);

    // No supply to price an exact withdrawal against
    assert!(calculate_shares_for_assets(1000, 0, 1000).is_err());
}

#[test]
fn test_overflow_edge_cases() {
    let max_u64 = u64::MAX;
    let max_u128 = u128::MAX;

    // u64 overflow
    assert!(max_u64.safe_add(1).is_err());
    assert!(max_u64.safe_mul(2).is_err());
    assert!((max_u64 - 1).safe_add(1).is_ok());

    // u128 overflow
    assert!(max_u128.safe_add(1).is_err());
    assert!(max_u128.safe_mul(2).is_err());
    assert!((max_u128 - 1).safe_add(1).is_ok());

    // Overflow inside the conversions
    assert!(calculate_shares(max_u64, max_u64, 1).is_err());
    assert!(calculate_assets(max_u64, 1, max_u64).is_err());
}

#[test]
fn test_zero_division_scenarios() {
    // Direct division by zero
    assert!(10u64.safe_div(0).is_err());
    assert!(10u128.safe_div(0).is_err());
    assert!(10i64.safe_div(0).is_err());

    // Division by zero inside the conversions
    assert!(calculate_shares(1000, 1000, 0).is_err());
    assert!(calculate_shares_for_assets(1000, 1000, 0).is_err());

    // The accumulator update guards against zero shares
    let result = calculate_rewards_per_share(1000, 0, 0);
    assert!(result.is_ok());
    assert_eq!(result.unwrap(), 0);
}

#[test]
fn test_negative_number_handling() {
    let negative_i64 = -100i64;

    // A negative value never casts to an unsigned type
    assert!(SafeCast::<u64>::safe_cast(&negative_i64).is_err());
    assert!(SafeCast::<u128>::safe_cast(&negative_i64).is_err());

    // Negative elapsed time accrues no fee
    let fee = calculate_management_fee(1000, 200, negative_i64, 0).unwrap();
    assert_eq!(fee, 0);
}

#[test]
fn test_boundary_value_calculations() {
    // Smallest values
    assert_eq!(calculate_shares(1, 1, 1).unwrap(), 1);
    assert_eq!(calculate_assets(1, 1, 1).unwrap(), 1);

    // Near the maximum
    let near_max = u64::MAX / 2;
    assert!(calculate_shares(near_max, near_max, near_max).is_ok());
    assert!(calculate_assets(near_max, near_max, near_max).is_ok());

    // Past the maximum
    assert!(calculate_shares(u64::MAX, u64::MAX, 1).is_err());
}

#[test]
fn test_precision_boundary_cases() {
    // A tiny deposit against a huge pool
    let tiny_amount = 1u64;
    let huge_supply = u64::MAX / 2;
    let huge_assets = u64::MAX / 2;

    let shares = calculate_shares(tiny_amount, huge_supply, huge_assets).unwrap();
    // The dust floor guarantees at least one share
    assert!(shares >= 1);

    // A huge deposit against a tiny pool
    let large_amount = u64::MAX / 2;
    let tiny_supply = 1u64;
    let tiny_assets = 1u64;

    // May succeed or overflow depending on the exact values
    let result = calculate_shares(large_amount, tiny_supply, tiny_assets);
    if result.is_ok() {
        assert!(result.unwrap() > 0);
    }
}

#[test]
fn test_management_fee_error_conditions() {
    // Zero assets
    assert_eq!(calculate_management_fee(0, 200, 365 * 24 * 60 * 60, 0).unwrap(), 0);

    // Zero rate
    assert_eq!(calculate_management_fee(1000, 0, 365 * 24 * 60 * 60, 0).unwrap(), 0);

    // Zero elapsed time
    assert_eq!(calculate_management_fee(1000, 200, 0, 0).unwrap(), 0);

    // Negative elapsed time
    assert_eq!(calculate_management_fee(1000, 200, -100, 0).unwrap(), 0);
}

#[test]
fn test_rebase_calculation_errors() {
    // Zero assets
    let (expo_diff, divisor) = calculate_rebase_factor(1000, 0).unwrap();
    assert_eq!(expo_diff, 0);
    assert_eq!(divisor, 1);

    // No rebase needed
    let (expo_diff, divisor) = calculate_rebase_factor(1000, 2000).unwrap();
    assert_eq!(expo_diff, 0);
    assert_eq!(divisor, 1);

    // Rebase needed
    let (expo_diff, divisor) = calculate_rebase_factor(1_000_000, 100).unwrap();
    assert!(expo_diff > 0);
    assert!(divisor > 1);
}

#[test]
fn test_safe_cast_edge_cases() {
    // u64 -> u128 (always safe)
    assert!(SafeCast::<u128>::safe_cast(&u64::MAX).is_ok());
    assert!(SafeCast::<u128>::safe_cast(&0u64).is_ok());

    // u128 -> u64 (may overflow)
    assert!(SafeCast::<u64>::safe_cast(&(u64::MAX as u128)).is_ok());
    assert!(SafeCast::<u64>::safe_cast(&((u64::MAX as u128) + 1)).is_err());

    // i64 -> u64 (negative values fail)
    assert!(SafeCast::<u64>::safe_cast(&100i64).is_ok());
    assert!(SafeCast::<u64>::safe_cast(&(-1i64)).is_err());

    // u64 -> i64 (large values fail)
    assert!(SafeCast::<i64>::safe_cast(&(i64::MAX as u64)).is_ok());
    assert!(SafeCast::<i64>::safe_cast(&((i64::MAX as u64) + 1)).is_err());
}

#[test]
fn test_reward_calculation_edge_cases() {
    // Zero shares
    let result = calculate_rewards_per_share(1000, 0, 0);
    assert!(result.is_ok());
    assert_eq!(result.unwrap(), 0);

    // Zero reward
    let result = calculate_rewards_per_share(0, 1000, 0);
    assert!(result.is_ok());
    assert_eq!(result.unwrap(), 0);

    // Pending rewards with zero shares
    let pending = calculate_pending_rewards(0, 1000, 0);
    assert!(pending.is_ok());
    assert_eq!(pending.unwrap(), 0);

    // Debt exceeding rewards
    let pending = calculate_pending_rewards(1000, 500, 1000);
    assert!(pending.is_ok());
    assert_eq!(pending.unwrap(), 0);
}

#[test]
fn test_extreme_precision_scenarios() {
    // One base unit against a pool of 10^18
    let tiny_amount = 1u64;
    let huge_total = 1_000_000_000_000_000_000u64;

    let shares = calculate_shares(tiny_amount, huge_total, huge_total).unwrap();
    assert!(shares >= 1); // precision protection holds

    // Converting back recovers at least the deposit
    let assets = calculate_assets(shares, huge_total + shares, huge_total + tiny_amount).unwrap();
    assert!(assets >= tiny_amount);
}
