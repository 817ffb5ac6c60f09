use vstd::prelude::*;

use vstd::arithmetic::div_mod::{
    lemma_div_by_multiple, lemma_div_is_ordered, lemma_div_of0, lemma_fundamental_div_mod,
    lemma_mod_division_less_than_divisor,
};

use crate::constants::{BASIS_POINTS_PRECISION, SECONDS_PER_YEAR, SHARE_PRECISION};
use crate::error::{VaultError, VaultResult};
use crate::math::{lemma_u64_mul_fits_u128, SafeCast, SafeMath};

verus! {

/// `10^k`.
pub open spec fn pow10(k: nat) -> nat
    decreases k,
{
    if k == 0 {
        1
    } else {
        10 * pow10((k - 1) as nat)
    }
}

/// The smallest exponent `e` with `k <= e <= 20` such that `10^e >= ratio`,
/// or `20` when no such exponent exists.
pub open spec fn rebase_search(ratio: int, k: nat) -> nat
    decreases 20 - k,
{
    if k >= 20 || pow10(k) >= ratio {
        k
    } else {
        rebase_search(ratio, k + 1)
    }
}

/// Powers of ten are positive.
pub proof fn lemma_pow10_pos(k: nat)
    ensures
        pow10(k) >= 1,
    decreases k,
{
    if k > 0 {
        lemma_pow10_pos((k - 1) as nat);
    }
}

/// Powers of ten grow with the exponent.
pub proof fn lemma_pow10_increases(j: nat, k: nat)
    requires
        j <= k,
    ensures
        pow10(j) <= pow10(k),
    decreases k,
{
    if j < k {
        lemma_pow10_increases(j, (k - 1) as nat);
        lemma_pow10_pos((k - 1) as nat);
    }
}

/// The rebase exponent search never leaves the range of its start and 20.
pub proof fn lemma_rebase_search_le_20(ratio: int, k: nat)
    requires
        k <= 20,
    ensures
        k <= rebase_search(ratio, k) <= 20,
    decreases 20 - k,
{
    if !(k >= 20 || pow10(k) >= ratio) {
        lemma_rebase_search_le_20(ratio, k + 1);
    }
}

/// `10^38` still fits in a `u128`.
pub proof fn lemma_pow10_38_fits()
    ensures
        pow10(38) <= u128::MAX,
{
    reveal_with_fuel(pow10, 40);
    assert(pow10(38) == 100_000_000_000_000_000_000_000_000_000_000_000_000);
}

/// Shares minted for a deposit of `amount`: one-to-one when the pool has no
/// shares, otherwise `floor(amount * total_supply / total_assets)`, raised to
/// one share when a positive deposit would round down to zero.
pub open spec fn spec_calculate_shares(amount: u64, total_supply: u64, total_assets: u64) -> VaultResult<u64> {
    if total_supply == 0 {
        Ok(amount)
    } else if total_assets == 0 {
        Err(VaultError::DivisionByZero)
    } else {
        let s = amount * total_supply / (total_assets as int);
        if s > u64::MAX {
            Err(VaultError::MathOverflow)
        } else if s == 0 && amount > 0 {
            Ok(1u64)
        } else {
            Ok(s as u64)
        }
    }
}

/// Assets returned for `shares`: zero when the pool has no shares, otherwise
/// `floor(shares * total_assets / total_supply)`.
pub open spec fn spec_calculate_assets(shares: u64, total_supply: u64, total_assets: u64) -> VaultResult<u64> {
    if total_supply == 0 {
        Ok(0u64)
    } else {
        let s = shares * total_assets / (total_supply as int);
        if s > u64::MAX {
            Err(VaultError::MathOverflow)
        } else {
            Ok(s as u64)
        }
    }
}

/// Shares needed to withdraw exactly `amount` assets; unlike
/// `spec_calculate_shares` this demands an existing share supply.
pub open spec fn spec_calculate_shares_for_assets(amount: u64, total_supply: u64, total_assets: u64) -> VaultResult<u64> {
    if total_supply == 0 {
        Err(VaultError::InvalidSharesCalculation)
    } else if total_assets == 0 {
        Err(VaultError::DivisionByZero)
    } else {
        let s = amount * total_supply / (total_assets as int);
        if s > u64::MAX {
            Err(VaultError::MathOverflow)
        } else {
            Ok(s as u64)
        }
    }
}

/// The reward accumulator after distributing `total_rewards` over
/// `total_shares`: unchanged when no shares exist, otherwise raised by
/// `floor(total_rewards * SHARE_PRECISION / total_shares)`.
pub open spec fn spec_calculate_rewards_per_share(
    total_rewards: u64,
    total_shares: u64,
    last_rewards_per_share: u128,
) -> VaultResult<u128> {
    if total_shares == 0 {
        Ok(last_rewards_per_share)
    } else {
        let delta = total_rewards * SHARE_PRECISION / (total_shares as int);
        if last_rewards_per_share + delta > u128::MAX {
            Err(VaultError::MathOverflow)
        } else {
            Ok((last_rewards_per_share + delta) as u128)
        }
    }
}

/// Rewards owed to a holder of `user_shares` under accumulator
/// `rewards_per_share`, net of the debt already credited; never negative.
pub open spec fn spec_calculate_pending_rewards(
    user_shares: u64,
    rewards_per_share: u128,
    user_rewards_debt: u128,
) -> VaultResult<u64> {
    if user_shares * rewards_per_share > u128::MAX {
        Err(VaultError::MathOverflow)
    } else {
        let total = user_shares * rewards_per_share / (SHARE_PRECISION as int);
        if total >= user_rewards_debt {
            if total - user_rewards_debt > u64::MAX {
                Err(VaultError::MathOverflow)
            } else {
                Ok((total - user_rewards_debt) as u64)
            }
        } else {
            Ok(0u64)
        }
    }
}

/// The rebase factor `(e, 10^e)` for a pool whose share count has outgrown
/// its asset count: `e` is the smallest exponent (at most 20) with
/// `10^e >= floor(total_shares / total_assets)`, and `(0, 1)` when no rebase
/// is needed.
pub open spec fn spec_rebase_factor(total_shares: u64, total_assets: u64) -> (u32, u128) {
    if total_assets == 0 || total_shares <= total_assets {
        (0u32, 1u128)
    } else {
        let ratio = total_shares as int / total_assets as int;
        let k = rebase_search(ratio, 0);
        (k as u32, pow10(k) as u128)
    }
}

/// The management fee owed on `total_assets` at `management_fee_bps` basis
/// points per year, prorated over `time_elapsed_seconds` clamped to one year;
/// zero for a zero rate, an empty pool, or non-positive elapsed time.
pub open spec fn spec_calculate_management_fee(
    total_assets: u64,
    management_fee_bps: u64,
    time_elapsed_seconds: i64,
) -> VaultResult<u64> {
    if management_fee_bps == 0 || total_assets == 0 || time_elapsed_seconds <= 0 {
        Ok(0u64)
    } else {
        let clamped: int = if time_elapsed_seconds > SECONDS_PER_YEAR {
            SECONDS_PER_YEAR as int
        } else {
            time_elapsed_seconds as int
        };
        let annual = total_assets * management_fee_bps / (BASIS_POINTS_PRECISION as int);
        if annual * clamped > u128::MAX {
            Err(VaultError::MathOverflow)
        } else {
            let fee = annual * clamped / (SECONDS_PER_YEAR as int);
            if fee > u64::MAX {
                Err(VaultError::MathOverflow)
            } else {
                Ok(fee as u64)
            }
        }
    }
}

/// Calculate shares to mint for a given deposit amount.
pub fn calculate_shares(amount: u64, total_supply: u64, total_assets: u64) -> (r: VaultResult<u64>)
    ensures
        r == spec_calculate_shares(amount, total_supply, total_assets),
{
    if total_supply == 0 {
        return Ok(amount);
    }
    if total_assets == 0 {
        return Err(VaultError::DivisionByZero);
    }
    proof {
        lemma_u64_mul_fits_u128(amount as int, total_supply as int);
    }
    let shares = (amount as u128).safe_mul(total_supply as u128)?.safe_div(total_assets as u128)?;
    let shares_u64: u64 = shares.safe_cast()?;
    // A strictly positive deposit must never mint zero shares.
    if shares_u64 == 0 && amount > 0 {
        return Ok(1);
    }
    Ok(shares_u64)
}

/// Calculate assets to return for a given amount of shares.
pub fn calculate_assets(shares: u64, total_supply: u64, total_assets: u64) -> (r: VaultResult<u64>)
    ensures
        r == spec_calculate_assets(shares, total_supply, total_assets),
{
    if total_supply == 0 {
        return Ok(0);
    }
    proof {
        lemma_u64_mul_fits_u128(shares as int, total_assets as int);
    }
    let assets = (shares as u128).safe_mul(total_assets as u128)?.safe_div(total_supply as u128)?;
    assets.safe_cast()
}

/// Calculate the shares needed to withdraw a specific asset amount.
pub fn calculate_shares_for_assets(amount: u64, total_supply: u64, total_assets: u64) -> (r: VaultResult<u64>)
    ensures
        r == spec_calculate_shares_for_assets(amount, total_supply, total_assets),
{
    if total_supply == 0 {
        return Err(VaultError::InvalidSharesCalculation);
    }
    if total_assets == 0 {
        return Err(VaultError::DivisionByZero);
    }
    proof {
        lemma_u64_mul_fits_u128(amount as int, total_supply as int);
    }
    let shares = (amount as u128).safe_mul(total_supply as u128)?.safe_div(total_assets as u128)?;
    shares.safe_cast()
}

/// Update the rewards-per-share accumulator for a reward distribution.
pub fn calculate_rewards_per_share(
    total_rewards: u64,
    total_shares: u64,
    last_rewards_per_share: u128,
) -> (r: VaultResult<u128>)
    ensures
        r == spec_calculate_rewards_per_share(total_rewards, total_shares, last_rewards_per_share),
{
    if total_shares == 0 {
        return Ok(last_rewards_per_share);
    }
    proof {
        assert(total_rewards * SHARE_PRECISION <= u64::MAX * SHARE_PRECISION) by (nonlinear_arith)
            requires
                0 <= total_rewards <= u64::MAX,
        ;
    }
    let rewards_per_share = (total_rewards as u128).safe_mul(SHARE_PRECISION)?.safe_div(
        total_shares as u128,
    )?;
    last_rewards_per_share.safe_add(rewards_per_share)
}

/// Rewards owed to a holder under the legacy accumulator model.
pub fn calculate_pending_rewards(
    user_shares: u64,
    rewards_per_share: u128,
    user_rewards_debt: u128,
) -> (r: VaultResult<u64>)
    ensures
        r == spec_calculate_pending_rewards(user_shares, rewards_per_share, user_rewards_debt),
{
    let total_rewards = (user_shares as u128).safe_mul(rewards_per_share)?.safe_div(
        SHARE_PRECISION,
    )?;
    if total_rewards >= user_rewards_debt {
        (total_rewards.safe_sub(user_rewards_debt)?).safe_cast()
    } else {
        Ok(0)
    }
}

/// Calculate the rebase factor when the share count outgrows the asset count.
pub fn calculate_rebase_factor(total_shares: u64, total_assets: u64) -> (r: VaultResult<(u32, u128)>)
    ensures
        r == Ok::<(u32, u128), VaultError>(spec_rebase_factor(total_shares, total_assets)),
{
    if total_assets == 0 || total_shares <= total_assets {
        return Ok((0, 1));
    }
    let ratio = (total_shares as u128).safe_div(total_assets as u128)?;
    proof {
        lemma_div_is_ordered(total_shares as int, u64::MAX as int, total_assets as int);
        lemma_div_by_multiple(1int, total_assets as int);
        lemma_div_is_ordered(total_assets as int, total_shares as int, total_assets as int);
    }
    let mut expo_diff: u32 = 0;
    let mut divisor: u128 = 1;
    while divisor < ratio && expo_diff < 20
        invariant
            1 <= ratio <= u64::MAX,
            ratio == total_shares as int / total_assets as int,
            expo_diff <= 20,
            divisor == pow10(expo_diff as nat),
            rebase_search(ratio as int, 0) == rebase_search(ratio as int, expo_diff as nat),
        decreases 20 - expo_diff,
    {
        divisor = divisor.safe_mul(10)?;
        expo_diff = expo_diff.safe_add(1)?;
    }
    Ok((expo_diff, divisor))
}

/// Calculate the time-prorated management fee.  Elapsed time is clamped to
/// one year so that a long idle period cannot accrue an unbounded fee.
pub fn calculate_management_fee(
    total_assets: u64,
    management_fee_bps: u64,
    time_elapsed_seconds: i64,
    _last_fee_update: i64,
) -> (r: VaultResult<u64>)
    ensures
        r == spec_calculate_management_fee(total_assets, management_fee_bps, time_elapsed_seconds),
{
    if management_fee_bps == 0 || total_assets == 0 || time_elapsed_seconds <= 0 {
        return Ok(0);
    }
    let max_time_elapsed: i64 = SECONDS_PER_YEAR;
    let safe_time_elapsed: i64 = if time_elapsed_seconds > max_time_elapsed {
        max_time_elapsed
    } else {
        time_elapsed_seconds
    };
    let time_elapsed_u64: u64 = safe_time_elapsed as u64;
    proof {
        lemma_u64_mul_fits_u128(total_assets as int, management_fee_bps as int);
    }
    let annual = (total_assets as u128).safe_mul(management_fee_bps as u128)?.safe_div(
        BASIS_POINTS_PRECISION as u128,
    )?;
    let fee_amount = annual.safe_mul(time_elapsed_u64 as u128)?.safe_div(
        SECONDS_PER_YEAR as u128,
    )?;
    fee_amount.safe_cast()
}

/// Bootstrap law: the first deposit into an empty pool mints shares
/// one-to-one with the deposited amount.
pub proof fn lemma_bootstrap(amount: u64)
    ensures
        spec_calculate_shares(amount, 0, 0) == Ok::<u64, VaultError>(amount),
{
}

/// Dust-floor law: a strictly positive deposit into a pool with shares and
/// assets never converts to zero shares.
pub proof fn lemma_dust_floor(amount: u64, total_supply: u64, total_assets: u64)
    requires
        amount > 0,
        total_supply > 0,
        total_assets > 0,
    ensures
        spec_calculate_shares(amount, total_supply, total_assets) matches Ok(shares) ==> shares
            >= 1,
{
    assert(amount * total_supply / (total_assets as int) >= 0) by (nonlinear_arith)
        requires
            amount > 0,
            total_supply > 0,
            total_assets > 0,
    ;
}

/// Round-trip law: when a deposit mints its exact proportional share count
/// (no dust clamp applies) and the pool holds at most one asset unit per
/// share after the deposit, converting the minted shares back at the
/// post-deposit totals recovers the deposit within one unit.
pub proof fn lemma_conversion_round_trip(amount: u64, total_supply: u64, total_assets: u64)
    requires
        total_supply > 0,
        total_assets > 0,
        amount * total_supply / (total_assets as int) >= 1,
        total_assets <= total_supply + amount * total_supply / (total_assets as int),
        total_supply + amount * total_supply / (total_assets as int) <= u64::MAX,
        total_assets + amount <= u64::MAX,
    ensures
        ({
            let minted = amount * total_supply / (total_assets as int);
            let recovered = minted * (total_assets + amount) / (total_supply + minted);
            &&& spec_calculate_shares(amount, total_supply, total_assets) == Ok::<
                u64,
                VaultError,
            >(minted as u64)
            &&& spec_calculate_assets(
                minted as u64,
                (total_supply + minted) as u64,
                (total_assets + amount) as u64,
            ) == Ok::<u64, VaultError>(recovered as u64)
            &&& amount - 1 <= recovered <= amount
        }),
{
    let x = amount as int;
    let s = total_supply as int;
    let a = total_assets as int;
    let m = x * s / a;
    let r = x * s % a;
    lemma_fundamental_div_mod(x * s, a);
    lemma_mod_division_less_than_divisor(x * s, a);
    assert(x * s == a * m + r);
    assert(0 <= r < a);
    // The minted count never exceeds the new supply bound, so the conversion
    // succeeds without the dust clamp.
    assert(m <= s + m);
    // Upper bound: m * (a + x) <= x * (s + m), because m * a <= x * s.
    assert(m * (a + x) <= x * (s + m)) by (nonlinear_arith)
        requires
            x * s == a * m + r,
            0 <= r,
    ;
    lemma_div_is_ordered(m * (a + x), x * (s + m), s + m);
    lemma_div_by_multiple(x, s + m);
    assert(x * (s + m) == (s + m) * x) by (nonlinear_arith);
    let recovered = m * (a + x) / (s + m);
    assert(recovered <= x);
    // A zero deposit would mint zero shares, so the deposit is positive.
    if x == 0 {
        assert(x * s == 0);
        lemma_div_of0(a);
        assert(m == 0);
    }
    assert(x >= 1);
    // Lower bound: (x - 1) * (s + m) <= m * (a + x), because r < a <= s + m.
    assert((x - 1) * (s + m) <= m * (a + x)) by (nonlinear_arith)
        requires
            x * s == a * m + r,
            r < a,
            a <= s + m,
    ;
    lemma_div_is_ordered((x - 1) * (s + m), m * (a + x), s + m);
    lemma_div_by_multiple(x - 1, s + m);
    assert((x - 1) * (s + m) == (s + m) * (x - 1)) by (nonlinear_arith);
    assert(recovered >= x - 1);
}

/// Time-cap law: the management fee for any elapsed time beyond one year
/// equals the fee for exactly one year.
pub proof fn lemma_fee_capped_at_one_year(
    total_assets: u64,
    management_fee_bps: u64,
    time_elapsed_seconds: i64,
)
    requires
        time_elapsed_seconds > SECONDS_PER_YEAR,
    ensures
        spec_calculate_management_fee(total_assets, management_fee_bps, time_elapsed_seconds)
            == spec_calculate_management_fee(total_assets, management_fee_bps, SECONDS_PER_YEAR),
{
}

} // verus!
