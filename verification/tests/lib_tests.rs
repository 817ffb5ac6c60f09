use simple_vault::constants::{
    BASIS_POINTS_PRECISION, DEFAULT_UNSTAKE_LOCKUP, ONE_DAY, PRECISION, SHARE_PRECISION,
};
use simple_vault::error::VaultError;
use simple_vault::math::{SafeCast, SafeMath};
use simple_vault::vault_math::{
    calculate_assets, calculate_management_fee, calculate_pending_rewards, calculate_rebase_factor,
    calculate_rewards_per_share, calculate_shares,
};

#[test]
fn lib_test_safe_math_operations() {
    // Safe addition
    assert_eq!(10u64.safe_add(20).unwrap(), 30);
    assert!(u64::MAX.safe_add(1).is_err());

    // Safe subtraction
    assert_eq!(20u64.safe_sub(10).unwrap(), 10);
    assert!(10u64.safe_sub(20).is_err());

    // Safe multiplication
    assert_eq!(10u64.safe_mul(5).unwrap(), 50);
    assert!(u64::MAX.safe_mul(2).is_err());

    // Safe division
    assert_eq!(20u64.safe_div(4).unwrap(), 5);
    assert!(20u64.safe_div(0).is_err());
}

#[test]
fn test_safe_cast_operations() {
    // u64 to u128 always works
    assert_eq!(SafeCast::<u128>::safe_cast(&100u64).unwrap(), 100u128);
    assert_eq!(SafeCast::<u128>::safe_cast(&u64::MAX).unwrap(), u64::MAX as u128);

    // u128 to u64
    assert_eq!(SafeCast::<u64>::safe_cast(&100u128).unwrap(), 100u64);
    assert!(SafeCast::<u64>::safe_cast(&((u64::MAX as u128) + 1)).is_err());

    // i64 to u64
    assert_eq!(SafeCast::<u64>::safe_cast(&100i64).unwrap(), 100u64);
    assert!(SafeCast::<u64>::safe_cast(&(-1i64)).is_err());
}

#[test]
fn lib_test_calculate_shares() {
    // First deposit gets 1:1 shares
    assert_eq!(calculate_shares(1000, 0, 0).unwrap(), 1000);

    // Subsequent deposits maintain proportional shares
    assert_eq!(calculate_shares(1000, 2000, 2000).unwrap(), 1000);
    assert_eq!(calculate_shares(500, 2000, 1000).unwrap(), 1000);

    // Division by zero is rejected
    assert!(calculate_shares(1000, 1000, 0).is_err());
}

#[test]
fn test_calculate_assets() {
    // Basic asset calculation
    assert_eq!(calculate_assets(1000, 2000, 2000).unwrap(), 1000);
    assert_eq!(calculate_assets(500, 1000, 2000).unwrap(), 1000);

    // Zero total supply yields zero assets
    assert_eq!(calculate_assets(1000, 0, 1000).unwrap(), 0);
}

#[test]
fn test_calculate_rewards_per_share() {
    // Basic rewards calculation
    let result = calculate_rewards_per_share(1000, 1000, 0).unwrap();
    assert_eq!(result, SHARE_PRECISION); // 1000 * 1e18 / 1000 = 1e18

    // With an existing accumulator value
    let result = calculate_rewards_per_share(1000, 1000, 500).unwrap();
    assert_eq!(result, 500 + SHARE_PRECISION);

    // With zero total shares the accumulator is unchanged
    let result = calculate_rewards_per_share(1000, 0, 500).unwrap();
    assert_eq!(result, 500);
}

#[test]
fn test_calculate_pending_rewards() {
    // In the compounding model pending rewards stay at zero; the legacy
    // accumulator calculation still works for backward compatibility.
    let shares = 1000u64;
    let rewards_per_share = 2u128 * SHARE_PRECISION;
    let rewards_debt = 1000u128;

    let pending = calculate_pending_rewards(shares, rewards_per_share, rewards_debt).unwrap();
    assert_eq!(pending, 1000);

    // Debt exceeding rewards clamps to zero
    let pending = calculate_pending_rewards(shares, 500u128, rewards_debt).unwrap();
    assert_eq!(pending, 0);
}

#[test]
fn test_calculate_rebase_factor() {
    // Rebase needed
    let (expo_diff, divisor) = calculate_rebase_factor(1_000_000, 100).unwrap();
    assert_eq!(expo_diff, 4); // 10^4 = 10,000
    assert_eq!(divisor, 10_000);

    // Rebase not needed
    let (expo_diff, divisor) = calculate_rebase_factor(100, 1000).unwrap();
    assert_eq!(expo_diff, 0);
    assert_eq!(divisor, 1);

    // Zero assets
    let (expo_diff, divisor) = calculate_rebase_factor(1000, 0).unwrap();
    assert_eq!(expo_diff, 0);
    assert_eq!(divisor, 1);
}

#[test]
fn lib_test_calculate_management_fee() {
    // 2% annual fee for 1 year
    let fee = calculate_management_fee(
        1_000_000,          // 1 token
        200,                // 2% (200 bps)
        365 * 24 * 60 * 60, // 1 year in seconds
        0,
    )
    .unwrap();
    assert_eq!(fee, 20_000); // 2% of 1_000_000

    // 6 months is about 1%
    let fee = calculate_management_fee(
        1_000_000,
        200,
        182 * 24 * 60 * 60, // ~6 months
        0,
    )
    .unwrap();
    assert!(fee >= 9_900 && fee <= 10_100); // ~1% with some rounding tolerance

    // Edge cases
    assert_eq!(calculate_management_fee(0, 200, 365 * 24 * 60 * 60, 0).unwrap(), 0);
    assert_eq!(calculate_management_fee(1_000_000, 0, 365 * 24 * 60 * 60, 0).unwrap(), 0);
    assert_eq!(calculate_management_fee(1_000_000, 200, 0, 0).unwrap(), 0);
}

#[test]
fn test_constants() {
    // The constants are reasonable
    assert_eq!(SHARE_PRECISION, 1_000_000_000_000_000_000u128); // 10^18
    assert_eq!(BASIS_POINTS_PRECISION, 10_000u64);
    assert_eq!(DEFAULT_UNSTAKE_LOCKUP, 14 * 24 * 60 * 60); // 14 days
    assert_eq!(ONE_DAY, 24 * 60 * 60); // 1 day in seconds

    // Precision is large enough to avoid rounding errors
    assert!(SHARE_PRECISION > 1_000_000u128);
    assert!(BASIS_POINTS_PRECISION >= 10_000u64);
}

#[test]
fn test_vault_error_types() {
    // All error types can be created and are distinct
    let errors = vec![
        VaultError::InsufficientFunds,
        VaultError::InvalidAmount,
        VaultError::UnstakeLockupNotFinished,
        VaultError::NoUnstakeRequest,
        VaultError::UnstakeRequestAlreadyExists,
        VaultError::InvalidVaultConfig,
        VaultError::Unauthorized,
        VaultError::VaultPaused,
        VaultError::InvalidSharesCalculation,
        VaultError::MathOverflow,
        VaultError::DivisionByZero,
        VaultError::InvalidTokenMint,
        VaultError::InvalidTokenAccount,
        VaultError::VaultIsFull,
        VaultError::MinimumStakeAmountNotMet,
    ];

    assert_eq!(errors.len(), 15);
}

#[test]
fn test_precision_edge_cases() {
    // Very small numbers
    assert_eq!(calculate_shares(1, 1, 1).unwrap(), 1);

    // Very large numbers within bounds
    let large_amount = u64::MAX / 2;
    let result = calculate_shares(large_amount, large_amount, large_amount);
    assert!(result.is_ok());
    assert_eq!(result.unwrap(), large_amount);

    // Overflow scenarios: the floored result exceeds u64
    assert!(calculate_shares(u64::MAX, u64::MAX, 1).is_err());
}

#[test]
fn test_math_consistency() {
    // shares -> assets -> shares conversion is consistent
    let original_amount = 1_000_000u64;
    let total_supply = 2_000_000u64;
    let total_assets = 2_000_000u64;

    // Convert amount to shares
    let shares = calculate_shares(original_amount, total_supply, total_assets).unwrap();

    // Convert shares back to assets
    let new_total_supply = total_supply + shares;
    let new_total_assets = total_assets + original_amount;
    let recovered_amount = calculate_assets(shares, new_total_supply, new_total_assets).unwrap();

    // Approximately equal (allowing for rounding)
    let diff = if recovered_amount > original_amount {
        recovered_amount - original_amount
    } else {
        original_amount - recovered_amount
    };
    assert!(diff <= 1, "Conversion inconsistency: {} vs {}", original_amount, recovered_amount);
}

#[test]
fn test_zero_division_safety() {
    // All functions handle a zero divisor gracefully
    assert!(calculate_shares(1000, 1000, 0).is_err());
    assert!(10u64.safe_div(0).is_err());
    assert!(10u128.safe_div(0).is_err());
    assert!(10i64.safe_div(0).is_err());
}

#[test]
fn test_rewards_calculation_edge_cases() {
    // Zero shares
    let result = calculate_rewards_per_share(1000, 0, 0);
    assert!(result.is_ok());
    assert_eq!(result.unwrap(), 0);

    // Pending rewards with zero shares
    let pending = calculate_pending_rewards(0, SHARE_PRECISION, 0);
    assert!(pending.is_ok());
    assert_eq!(pending.unwrap(), 0);

    // Debt equals rewards
    let pending = calculate_pending_rewards(1000, SHARE_PRECISION, 1000);
    assert!(pending.is_ok());
    assert_eq!(pending.unwrap(), 0);

    // Debt exceeds rewards
    let pending = calculate_pending_rewards(1000, SHARE_PRECISION, 2000);
    assert!(pending.is_ok());
    assert_eq!(pending.unwrap(), 0);
}

#[test]
fn test_rewards_accumulation_scenario() {
    // A realistic accumulation scenario under the legacy accumulator
    let initial_shares = 1000u64;
    let initial_rewards_per_share = 0u128;

    // First distribution: 100 tokens over 1000 shares
    let rewards_per_share_1 =
        calculate_rewards_per_share(100, initial_shares, initial_rewards_per_share).unwrap();
    assert_eq!(rewards_per_share_1, 100u128 * SHARE_PRECISION / 1000u128);

    // Second distribution: 200 tokens over 1000 shares
    let rewards_per_share_2 =
        calculate_rewards_per_share(200, initial_shares, rewards_per_share_1).unwrap();
    let expected_2 = rewards_per_share_1 + (200u128 * SHARE_PRECISION / 1000u128);
    assert_eq!(rewards_per_share_2, expected_2);

    // A holder of 500 shares gets proportional rewards
    let user_shares = 500u64;
    let user_debt = 0u128;
    let pending = calculate_pending_rewards(user_shares, rewards_per_share_2, user_debt).unwrap();
    assert_eq!(pending, 150); // (100 + 200) * 500 / 1000 = 150
}

#[test]
fn test_automatic_compounding() {
    // Rewards compound into share value without any holder action
    let initial_assets = 1000u64;
    let initial_shares = 1000u64;
    let reward_amount = 100u64;

    // Initial share value: 1000 assets / 1000 shares = 1.0
    let initial_share_value = initial_assets / initial_shares;
    assert_eq!(initial_share_value, 1);

    // After adding 100 rewards, total assets become 1100
    let new_total_assets = initial_assets + reward_amount;
    let new_share_value = new_total_assets / initial_shares;
    assert_eq!(new_share_value, 1); // 1100 / 1000 = 1.1 (rounded down)

    // A holder of 500 shares now owns more value
    let user_shares = 500u64;
    let user_asset_value = user_shares * new_total_assets / initial_shares;
    assert_eq!(user_asset_value, 550); // 500 * 1100 / 1000 = 550
}

#[test]
fn test_overflow_safety() {
    // All operations report overflow instead of wrapping
    assert!(u64::MAX.safe_add(1).is_err());
    assert!(u64::MAX.safe_mul(2).is_err());
    assert!(u128::MAX.safe_add(1).is_err());
    assert!(u128::MAX.safe_mul(2).is_err());
    assert!(i64::MAX.safe_add(1).is_err());
    assert!(i64::MAX.safe_mul(2).is_err());
}

#[test]
fn test_management_fee_in_compounding_model() {
    // The management fee is a share of total assets
    let initial_assets = 10_000u64;
    let fee_rate = 200u64; // 2% annually
    let time_period = 365 * 24 * 60 * 60i64; // 1 year

    let expected_fee =
        calculate_management_fee(initial_assets, fee_rate, time_period, 0).unwrap();

    let assets_after_fee = initial_assets - expected_fee;

    // The fee is approximately 2% of assets
    assert!(expected_fee >= 190 && expected_fee <= 210);
    assert_eq!(assets_after_fee, initial_assets - expected_fee);
}

#[test]
fn test_rewards_before_any_stakes() {
    // Rewards added before any stakes benefit the first staker
    let reward_amount = 1000u64;
    let first_stake_amount = 2000u64;

    // Rewards raise total assets even with no shares
    let total_assets_after_rewards = 0u64 + reward_amount;
    assert_eq!(total_assets_after_rewards, reward_amount);

    // The first staker receives 1:1 shares
    let shares = calculate_shares(first_stake_amount, 0, total_assets_after_rewards).unwrap();
    assert_eq!(shares, first_stake_amount);

    // Total assets now include both rewards and the stake
    let final_total_assets = total_assets_after_rewards + first_stake_amount;
    assert_eq!(final_total_assets, 3000); // 1000 rewards + 2000 stake

    // The staker's value includes the pre-existing rewards
    let user_value = shares * final_total_assets / shares;
    assert_eq!(user_value, 3000);
}

#[test]
fn test_share_value_calculation_with_compounding() {
    // Share value in the compounding model
    let initial_assets = 10_000u64;
    let initial_shares = 5_000u64;
    let rewards = 1_000u64;

    // Initial share value is 2.0 (10000 assets / 5000 shares)
    let initial_value = initial_assets * PRECISION as u64 / initial_shares;
    assert_eq!(initial_value, 2 * PRECISION as u64);

    // Adding rewards raises the share value
    let assets_after_rewards = initial_assets + rewards;
    let new_value = assets_after_rewards * PRECISION as u64 / initial_shares;
    assert_eq!(new_value, 2200000000000); // 2.2 * PRECISION (PRECISION is 10^12)

    assert!(new_value > initial_value);
}

#[test]
fn test_zero_shares_edge_case() {
    // Operations on a vault with no shares

    // Adding rewards to an empty vault works
    let reward_amount = 500u64;
    let total_assets = 0u64 + reward_amount;
    assert_eq!(total_assets, 500);

    // The first stake still gets 1:1 shares despite existing rewards
    let stake_amount = 1000u64;
    let shares = calculate_shares(stake_amount, 0, total_assets).unwrap();
    assert_eq!(shares, stake_amount);

    // Total assets include both rewards and the stake
    let final_assets = total_assets + stake_amount;
    assert_eq!(final_assets, 1500);

    // The staker's value covers the stake plus the pre-existing rewards
    let user_value = shares * final_assets / shares;
    assert_eq!(user_value, 1500);
}

#[test]
fn test_rebase_compatibility_with_compounding() {
    // The rebase multiplier is honoured in share-value calculations
    let shares_base = 2u32; // two rebase events
    let total_assets = 10_000u64;
    let total_shares = 1_000u64; // after rebase adjustments

    // Base value calculation
    let base_value = (total_assets as u128 * PRECISION as u128) / total_shares as u128;

    // Apply the rebase multiplier
    let rebase_multiplier = 10u128.pow(shares_base);
    let adjusted_value = base_value * rebase_multiplier;

    assert_eq!(base_value, 10u128 * PRECISION as u128); // 10.0 base value
    assert_eq!(rebase_multiplier, 100); // 10^2
    assert_eq!(adjusted_value, 1000u128 * PRECISION as u128); // 10.0 * 100 = 1000.0
}

#[test]
fn test_precision_loss_protection() {
    // The dust floor protects tiny deposits
    let total_supply = 1000000u64; // 1M shares
    let total_assets = 1000000u64; // 1M assets, so 1 share = 1 asset

    // A deposit that would round down to 0 shares
    let small_amount = 1u64;
    let shares = calculate_shares(small_amount, total_supply, total_assets).unwrap();

    // At least 1 share is minted
    assert_eq!(shares, 1);

    // A slightly larger deposit mints the exact proportional count
    let medium_amount = 10u64;
    let shares = calculate_shares(medium_amount, total_supply, total_assets).unwrap();
    assert_eq!(shares, 10);

    // A zero deposit still mints zero shares
    let zero_amount = 0u64;
    let shares = calculate_shares(zero_amount, total_supply, total_assets).unwrap();
    assert_eq!(shares, 0);
}
