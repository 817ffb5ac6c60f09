use vstd::prelude::*;

verus! {

/// Time constants (seconds).
pub const ONE_MINUTE: i64 = 60;
pub const ONE_HOUR: i64 = ONE_MINUTE * 60;
pub const ONE_DAY: i64 = ONE_HOUR * 24;
pub const ONE_WEEK: i64 = ONE_DAY * 7;
pub const FOURTEEN_DAYS: i64 = ONE_DAY * 14;
pub const SECONDS_PER_YEAR: i64 = 365 * 24 * 60 * 60;

/// Fixed-point scale for per-share asset values.
pub const PRECISION: u64 = 1_000_000_000_000;
/// Fixed-point scale for the legacy rewards-per-share accumulator.
pub const SHARE_PRECISION: u128 = 1_000_000_000_000_000_000;

/// Vault configuration limits.
pub const MAX_UNSTAKE_LOCKUP_DAYS: i64 = 90;
pub const MIN_UNSTAKE_LOCKUP_MINUTES: i64 = 10;
pub const DEFAULT_UNSTAKE_LOCKUP: i64 = FOURTEEN_DAYS;

/// Fee constants (basis points).
pub const MAX_MANAGEMENT_FEE: u64 = 10000;
pub const DEFAULT_MANAGEMENT_FEE: u64 = 5000;
pub const BASIS_POINTS_PRECISION: u64 = 10000;

/// Minimum delay between a depositor's stake and a following unstake or
/// unstake request (guards against same-block sandwiching).
pub const MIN_STAKE_DURATION: i64 = 1;

/// When every share of the pool is pending unstake, a vault idle for longer
/// than this window may be restarted at a one-to-one price (policy constant).
pub const MAX_INACTIVE_PERIOD: i64 = ONE_DAY * 7;

/// A rebase is refused outright when shares exceed assets by more than this
/// ratio: such a state signals an upstream accounting defect.
pub const MAX_REBASE_RATIO: u128 = 1_000_000;

} // verus!
