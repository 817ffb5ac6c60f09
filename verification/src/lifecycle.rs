use vstd::prelude::*;

use crate::constants::{BASIS_POINTS_PRECISION, MIN_STAKE_DURATION, PRECISION};
use crate::error::{VaultError, VaultResult};
use crate::math::{lemma_u64_mul_fits_u128, SafeCast, SafeMath};
use crate::unstake_request::UnstakeRequest;
use crate::vault::Vault;
use crate::vault_depositor::VaultDepositor;
use crate::vault_math::{calculate_assets, pow10, spec_calculate_assets};

verus! {

/// The asset value of `shares` at the fixed-point rate `rate` (assets per
/// share, scaled by `PRECISION`): `floor(shares * rate / PRECISION)`.
pub open spec fn spec_frozen_amount(shares: u64, rate: u128) -> VaultResult<u64> {
    if shares * rate > u128::MAX {
        Err(VaultError::MathOverflow)
    } else {
        let a = shares * rate / (PRECISION as int);
        if a > u64::MAX {
            Err(VaultError::MathOverflow)
        } else {
            Ok(a as u64)
        }
    }
}

/// Unwinding an already-pending request before a new one replaces it: the
/// frozen shares return to the depositor's active balance and the originally
/// frozen amount leaves the reservation, so nothing is counted twice.
pub open spec fn spec_unwind_request(v: Vault, d: VaultDepositor) -> VaultResult<(Vault, VaultDepositor)> {
    if d.unstake_request.shares == 0 {
        Ok((v, d))
    } else {
        let old_shares = d.unstake_request.shares;
        match spec_frozen_amount(old_shares, d.unstake_request.asset_per_share_at_request) {
            Err(e) => Err(e),
            Ok(old_freeze) => {
                if old_shares > v.pending_unstake_shares {
                    Err(VaultError::MathOverflow)
                } else if old_freeze > v.reserved_assets {
                    Err(VaultError::MathOverflow)
                } else if d.shares + old_shares > u64::MAX {
                    Err(VaultError::MathOverflow)
                } else {
                    Ok(
                        (
                            Vault {
                                pending_unstake_shares: (v.pending_unstake_shares - old_shares) as u64,
                                reserved_assets: (v.reserved_assets - old_freeze) as u64,
                                ..v
                            },
                            VaultDepositor { shares: (d.shares + old_shares) as u64, ..d },
                        ),
                    )
                }
            }
        }
    }
}

/// The size of a new request at rate `asv`.  An amount of `u64::MAX` means
/// "unstake all": the depositor's whole balance is frozen at its current
/// value.  Otherwise the exact requested asset amount is fixed first and the
/// share count derived from it, so repeated partial requests cannot extract
/// value through double rounding.
pub open spec fn spec_new_request_size(d: VaultDepositor, amount: u64, asv: u128) -> VaultResult<(u64, u64)> {
    if amount == u64::MAX {
        match spec_frozen_amount(d.shares, asv) {
            Err(e) => Err(e),
            Ok(freeze) => Ok((d.shares, freeze)),
        }
    } else {
        if asv == 0 {
            Err(VaultError::DivisionByZero)
        } else {
            let s = amount * PRECISION / (asv as int);
            if s > u64::MAX {
                Err(VaultError::MathOverflow)
            } else {
                Ok((s as u64, amount))
            }
        }
    }
}

/// The request transition (`NONE/PENDING -> PENDING`): guards, the unwind of
/// any prior request, sizing at the current active rate, then the shares move
/// from the depositor's active balance into the pending pool and the frozen
/// amount into the reservation, and the request records its rate.
pub open spec fn spec_request_unstake(v: Vault, d: VaultDepositor, amount: u64, now: i64) -> VaultResult<(Vault, VaultDepositor)> {
    if amount == 0 {
        Err(VaultError::InvalidAmount)
    } else if v.pending_unstake_shares > v.total_shares {
        Err(VaultError::MathOverflow)
    } else if v.spec_active_shares() == 0 {
        Err(VaultError::NoActiveShares)
    } else if now - d.last_stake_time < MIN_STAKE_DURATION {
        Err(VaultError::StakeCooldownNotMet)
    } else {
        match spec_unwind_request(v, d) {
            Err(e) => Err(e),
            Ok(p) => {
                let v1 = p.0;
                let d1 = p.1;
                match v1.spec_active_share_value() {
                    Err(e) => Err(e),
                    Ok(asv) => {
                        match spec_new_request_size(d1, amount, asv) {
                            Err(e) => Err(e),
                            Ok(sf) => {
                                let shares = sf.0;
                                let freeze_amount = sf.1;
                                if shares == 0 {
                                    Err(VaultError::InvalidAmount)
                                } else if shares > d1.shares {
                                    Err(VaultError::InsufficientFunds)
                                } else if v1.pending_unstake_shares + shares > u64::MAX {
                                    Err(VaultError::MathOverflow)
                                } else if v1.reserved_assets + freeze_amount > u64::MAX {
                                    Err(VaultError::MathOverflow)
                                } else {
                                    let v2 = Vault {
                                        pending_unstake_shares: (v1.pending_unstake_shares
                                            + shares) as u64,
                                        reserved_assets: (v1.reserved_assets
                                            + freeze_amount) as u64,
                                        ..v1
                                    };
                                    let d2 = VaultDepositor {
                                        shares: (d1.shares - shares) as u64,
                                        unstake_request: UnstakeRequest {
                                            shares,
                                            request_time: now,
                                            asset_per_share_at_request: asv,
                                        },
                                        ..d1
                                    };
                                    if v2.inv() {
                                        Ok((v2, d2))
                                    } else {
                                        Err(VaultError::InvariantViolation)
                                    }
                                }
                            }
                        }
                    }
                }
            }
        }
    }
}

/// The cancel transition (`PENDING -> NONE`): the shares return to the
/// depositor's active balance, exactly the originally frozen amount leaves
/// the reservation, and the asset total is reconciled by the drift between
/// the cancel-time and request-time valuations of those shares.
pub open spec fn spec_cancel_unstake(v: Vault, d: VaultDepositor) -> VaultResult<(Vault, VaultDepositor)> {
    if d.unstake_request.shares == 0 {
        Err(VaultError::NoUnstakeRequest)
    } else {
        let shares = d.unstake_request.shares;
        match spec_frozen_amount(shares, d.unstake_request.asset_per_share_at_request) {
            Err(e) => Err(e),
            Ok(original_frozen) => {
                match v.spec_active_share_value() {
                    Err(e) => Err(e),
                    Ok(current_rate) => {
                        match spec_frozen_amount(shares, current_rate) {
                            Err(e) => Err(e),
                            Ok(current_value) => {
                                if shares > v.pending_unstake_shares {
                                    Err(VaultError::MathOverflow)
                                } else if d.shares + shares > u64::MAX {
                                    Err(VaultError::MathOverflow)
                                } else if original_frozen > v.reserved_assets {
                                    Err(VaultError::MathOverflow)
                                } else if v.total_assets + current_value - original_frozen
                                    > u64::MAX || v.total_assets + current_value - original_frozen
                                    < 0 {
                                    Err(VaultError::MathOverflow)
                                } else {
                                    let v2 = Vault {
                                        pending_unstake_shares: (v.pending_unstake_shares
                                            - shares) as u64,
                                        reserved_assets: (v.reserved_assets
                                            - original_frozen) as u64,
                                        total_assets: (v.total_assets + current_value
                                            - original_frozen) as u64,
                                        ..v
                                    };
                                    let d2 = VaultDepositor {
                                        shares: (d.shares + shares) as u64,
                                        unstake_request: UnstakeRequest::spec_empty(),
                                        ..d
                                    };
                                    if v2.inv() {
                                        Ok((v2, d2))
                                    } else {
                                        Err(VaultError::InvariantViolation)
                                    }
                                }
                            }
                        }
                    }
                }
            }
        }
    }
}

/// The execute transition (`PENDING -> NONE`): after the lockup, the request
/// settles at exactly its frozen amount, which the custodial balance must
/// cover; the matching reservations and both totals shrink together.
pub open spec fn spec_execute_unstake(v: Vault, d: VaultDepositor, now: i64, vault_token_balance: u64) -> VaultResult<(Vault, VaultDepositor, u64)> {
    if !d.spec_can_unstake(now, v.unstake_lockup_period) {
        Err(VaultError::UnstakeLockupNotFinished)
    } else {
        let shares = d.unstake_request.shares;
        match spec_frozen_amount(shares, d.unstake_request.asset_per_share_at_request) {
            Err(e) => Err(e),
            Ok(amount) => {
                if vault_token_balance < amount {
                    Err(VaultError::InsufficientLiquidity)
                } else if shares > v.pending_unstake_shares {
                    Err(VaultError::MathOverflow)
                } else if amount > v.reserved_assets {
                    Err(VaultError::MathOverflow)
                } else if shares > v.total_shares {
                    Err(VaultError::MathOverflow)
                } else if amount > v.total_assets {
                    Err(VaultError::MathOverflow)
                } else if d.total_unstaked + amount > u64::MAX {
                    Err(VaultError::MathOverflow)
                } else {
                    let v2 = Vault {
                        pending_unstake_shares: (v.pending_unstake_shares - shares) as u64,
                        reserved_assets: (v.reserved_assets - amount) as u64,
                        total_shares: (v.total_shares - shares) as u64,
                        total_assets: (v.total_assets - amount) as u64,
                        ..v
                    };
                    let d2 = VaultDepositor {
                        total_unstaked: (d.total_unstaked + amount) as u64,
                        unstake_request: UnstakeRequest::spec_empty(),
                        ..d
                    };
                    if v2.inv() {
                        Ok((v2, d2, amount))
                    } else {
                        Err(VaultError::InvariantViolation)
                    }
                }
            }
        }
    }
}

/// The combined stake transition over both records.
pub open spec fn spec_stake_flow(v: Vault, d: VaultDepositor, amount: u64, now: i64) -> VaultResult<(Vault, VaultDepositor, u64)> {
    if amount == 0 {
        Err(VaultError::InvalidAmount)
    } else {
        match v.spec_stake(amount, now) {
            Err(e) => Err(e),
            Ok(p) => {
                match d.spec_stake(p.1, now) {
                    Err(e) => Err(e),
                    Ok(d1) => {
                        if d1.total_staked + amount > u64::MAX {
                            Err(VaultError::MathOverflow)
                        } else {
                            Ok(
                                (
                                    p.0,
                                    VaultDepositor {
                                        total_staked: (d1.total_staked + amount) as u64,
                                        ..d1
                                    },
                                    p.1,
                                ),
                            )
                        }
                    }
                }
            }
        }
    }
}

/// The rebase-sync transition: a stale depositor record is rescaled by the
/// vault's cumulative divisor, or merely stamped current when no contraction
/// has happened.
pub open spec fn spec_sync_rebase(v: Vault, d: VaultDepositor) -> VaultDepositor {
    if d.last_rebase_version < v.rebase_version {
        if v.shares_base > 0 {
            d.spec_apply_rebase(pow10(v.shares_base as nat) as u128, v.rebase_version)
        } else {
            VaultDepositor { last_rebase_version: v.rebase_version, ..d }
        }
    } else {
        d
    }
}

/// The fee-withdrawal transition: the owner redeems accumulated fee shares
/// at the total ratio, shrinking supply, assets and the owner's balance.
pub open spec fn spec_withdraw_management_fee(v: Vault, shares_to_withdraw: Option<u64>) -> VaultResult<(Vault, u64)> {
    if v.owner_shares == 0 {
        Err(VaultError::InsufficientFunds)
    } else {
        let shares = shares_to_withdraw.unwrap_or(v.owner_shares);
        if shares == 0 {
            Err(VaultError::InvalidAmount)
        } else if shares > v.owner_shares {
            Err(VaultError::InsufficientFunds)
        } else if v.total_shares < shares {
            Err(VaultError::InsufficientFunds)
        } else {
            match spec_calculate_assets(shares, v.total_shares, v.total_assets) {
                Err(e) => Err(e),
                Ok(assets) => {
                    if assets == 0 {
                        Err(VaultError::InvalidAmount)
                    } else if assets > v.total_assets {
                        Err(VaultError::MathOverflow)
                    } else {
                        let v2 = Vault {
                            total_shares: (v.total_shares - shares) as u64,
                            total_assets: (v.total_assets - assets) as u64,
                            owner_shares: (v.owner_shares - shares) as u64,
                            ..v
                        };
                        if v2.inv() {
                            Ok((v2, assets))
                        } else {
                            Err(VaultError::InvariantViolation)
                        }
                    }
                }
            }
        }
    }
}

/// A reward deposit split between the pool and the platform: the platform
/// takes `floor(amount * platform_share_bps / BASIS_POINTS_PRECISION)` and
/// the pool the remainder.
pub open spec fn spec_split_reward(amount: u64, platform_share_bps: u64) -> VaultResult<(u64, u64)> {
    let platform = amount * platform_share_bps / (BASIS_POINTS_PRECISION as int);
    if platform > u64::MAX {
        Err(VaultError::MathOverflow)
    } else if amount < platform {
        Err(VaultError::MathOverflow)
    } else {
        Ok(((amount - platform) as u64, platform as u64))
    }
}

/// Stake `amount` (already transferred into custody by the caller) for a
/// depositor: the vault mints shares and the depositor's balance and running
/// total grow.  Both records change together or not at all.
pub fn stake(vault: &mut Vault, vault_depositor: &mut VaultDepositor, amount: u64, now: i64) -> (r: VaultResult<u64>)
    requires
        old(vault).wf(),
        old(vault_depositor).wf(),
        0 <= now,
    ensures
        final(vault).wf(),
        final(vault_depositor).wf(),
        (match spec_stake_flow(*old(vault), *old(vault_depositor), amount, now) {
            Ok(t) => r == Ok::<u64, VaultError>(t.2) && *final(vault) == t.0 && *final(vault_depositor) == t.1,
            Err(e) => r == Err::<u64, VaultError>(e) && *final(vault) == *old(vault) && *final(vault_depositor) == *old(vault_depositor),
        }),
{
    if amount == 0 {
        return Err(VaultError::InvalidAmount);
    }
    let mut v = *vault;
    let mut d = *vault_depositor;
    let shares = v.stake(amount, now)?;
    d.stake(shares, 0, now)?;
    d.total_staked = d.total_staked.safe_add(amount)?;
    *vault = v;
    *vault_depositor = d;
    Ok(shares)
}

/// Request to unstake `amount` assets (`u64::MAX` for the whole balance).
/// Any prior pending request is unwound first.  Both records change together
/// or not at all.
pub fn request_unstake(vault: &mut Vault, vault_depositor: &mut VaultDepositor, amount: u64, now: i64) -> (r: VaultResult<()>)
    requires
        old(vault).wf(),
        old(vault_depositor).wf(),
        0 <= now,
    ensures
        final(vault).wf(),
        final(vault_depositor).wf(),
        (match spec_request_unstake(*old(vault), *old(vault_depositor), amount, now) {
            Ok(p) => r == Ok::<(), VaultError>(()) && *final(vault) == p.0 && *final(vault_depositor) == p.1,
            Err(e) => r == Err::<(), VaultError>(e) && *final(vault) == *old(vault) && *final(vault_depositor) == *old(vault_depositor),
        }),
{
    if amount == 0 {
        return Err(VaultError::InvalidAmount);
    }
    // An active price reference must exist.
    if vault.get_active_shares()? == 0 {
        return Err(VaultError::NoActiveShares);
    }
    // Post-stake cooldown guards against same-block sandwiching.
    if now - vault_depositor.last_stake_time < MIN_STAKE_DURATION {
        return Err(VaultError::StakeCooldownNotMet);
    }
    let mut v = *vault;
    let mut d = *vault_depositor;
    // Unwind an existing request so nothing is counted twice: restore its
    // shares and release its originally frozen amount at the stored rate,
    // never a freshly recomputed one.
    if d.unstake_request.is_pending() {
        let old_shares = d.unstake_request.shares;
        let old_freeze: u64 = (SafeCast::<u128>::safe_cast(&old_shares)?.safe_mul(
            d.unstake_request.asset_per_share_at_request,
        )?.safe_div(PRECISION as u128)?).safe_cast()?;
        v.pending_unstake_shares = v.pending_unstake_shares.safe_sub(old_shares)?;
        v.reserved_assets = v.reserved_assets.safe_sub(old_freeze)?;
        d.shares = d.shares.safe_add(old_shares)?;
    }
    let asset_per_share = v.get_active_share_value()?;
    // Fix the exact asset amount to freeze first, then derive the shares
    // from it, closing the double-rounding channel of partial requests.
    let shares: u64;
    let freeze_amount: u64;
    if amount == u64::MAX {
        shares = d.shares;
        freeze_amount = (SafeCast::<u128>::safe_cast(&shares)?.safe_mul(asset_per_share)?.safe_div(
            PRECISION as u128,
        )?).safe_cast()?;
    } else {
        freeze_amount = amount;
        proof {
            lemma_u64_mul_fits_u128(freeze_amount as int, PRECISION as int);
        }
        shares = (SafeCast::<u128>::safe_cast(&freeze_amount)?.safe_mul(PRECISION as u128)?
            .safe_div(asset_per_share)?).safe_cast()?;
    }
    if shares == 0 {
        return Err(VaultError::InvalidAmount);
    }
    if shares > d.shares {
        return Err(VaultError::InsufficientFunds);
    }
    // Freeze both sides at once: the shares stop earning rewards and the
    // matching assets leave the active pool.
    v.pending_unstake_shares = v.pending_unstake_shares.safe_add(shares)?;
    v.reserved_assets = v.reserved_assets.safe_add(freeze_amount)?;
    d.shares = d.shares.safe_sub(shares)?;
    d.unstake_request.shares = shares;
    d.unstake_request.request_time = now;
    d.unstake_request.asset_per_share_at_request = asset_per_share;
    v.verify_invariants()?;
    *vault = v;
    *vault_depositor = d;
    Ok(())
}

/// Cancel the pending request: the shares earn rewards again, the original
/// reservation is released, and the asset total absorbs the drift accrued
/// while the request sat pending.  Both records change together or not at
/// all.
pub fn cancel_unstake_request(vault: &mut Vault, vault_depositor: &mut VaultDepositor) -> (r: VaultResult<()>)
    requires
        old(vault).wf(),
        old(vault_depositor).wf(),
    ensures
        final(vault).wf(),
        final(vault_depositor).wf(),
        (match spec_cancel_unstake(*old(vault), *old(vault_depositor)) {
            Ok(p) => r == Ok::<(), VaultError>(()) && *final(vault) == p.0 && *final(vault_depositor) == p.1,
            Err(e) => r == Err::<(), VaultError>(e) && *final(vault) == *old(vault) && *final(vault_depositor) == *old(vault_depositor),
        }),
{
    if !vault_depositor.unstake_request.is_pending() {
        return Err(VaultError::NoUnstakeRequest);
    }
    let mut v = *vault;
    let mut d = *vault_depositor;
    let shares = d.unstake_request.shares;
    let asset_per_share_at_request = d.unstake_request.asset_per_share_at_request;
    // Release exactly what was frozen, from the stored rate.
    let original_frozen_amount: u64 = (SafeCast::<u128>::safe_cast(&shares)?.safe_mul(
        asset_per_share_at_request,
    )?.safe_div(PRECISION as u128)?).safe_cast()?;
    // Value the same shares at today's rate for the reconciliation.
    let current_share_value = v.get_active_share_value()?;
    let current_value: u64 = (SafeCast::<u128>::safe_cast(&shares)?.safe_mul(
        current_share_value,
    )?.safe_div(PRECISION as u128)?).safe_cast()?;
    v.pending_unstake_shares = v.pending_unstake_shares.safe_sub(shares)?;
    d.shares = d.shares.safe_add(shares)?;
    v.reserved_assets = v.reserved_assets.safe_sub(original_frozen_amount)?;
    // Reconcile the ledger: the shares rejoin the active pool at current
    // value, so the total absorbs the gain (or rare loss) meanwhile.
    if current_value > original_frozen_amount {
        let gain = current_value.safe_sub(original_frozen_amount)?;
        v.total_assets = v.total_assets.safe_add(gain)?;
    } else if current_value < original_frozen_amount {
        let loss = original_frozen_amount.safe_sub(current_value)?;
        v.total_assets = v.total_assets.safe_sub(loss)?;
    }
    d.unstake_request.reset();
    v.verify_invariants()?;
    *vault = v;
    *vault_depositor = d;
    Ok(())
}

/// Execute the pending request after its lockup: pays out exactly the frozen
/// amount — never re-priced against current conditions — provided the
/// custodial balance `vault_token_balance` covers it; the caller then
/// transfers that amount.  Both records change together or not at all.
pub fn unstake(vault: &mut Vault, vault_depositor: &mut VaultDepositor, now: i64, vault_token_balance: u64) -> (r: VaultResult<u64>)
    requires
        old(vault).wf(),
        old(vault_depositor).wf(),
        0 <= now,
    ensures
        final(vault).wf(),
        final(vault_depositor).wf(),
        (match spec_execute_unstake(*old(vault), *old(vault_depositor), now, vault_token_balance) {
            Ok(t) => r == Ok::<u64, VaultError>(t.2) && *final(vault) == t.0 && *final(vault_depositor) == t.1,
            Err(e) => r == Err::<u64, VaultError>(e) && *final(vault) == *old(vault) && *final(vault_depositor) == *old(vault_depositor),
        }),
{
    if !vault_depositor.can_unstake(now, vault.unstake_lockup_period) {
        return Err(VaultError::UnstakeLockupNotFinished);
    }
    let shares = vault_depositor.unstake_request.shares;
    let asset_per_share_at_request = vault_depositor.unstake_request.asset_per_share_at_request;
    if shares == 0 {
        return Err(VaultError::NoUnstakeRequest);
    }
    // The payout is fixed by the rate frozen at request time.
    let amount: u64 = (SafeCast::<u128>::safe_cast(&shares)?.safe_mul(
        asset_per_share_at_request,
    )?.safe_div(PRECISION as u128)?).safe_cast()?;
    // Never promise more than the custodial balance can pay.
    if vault_token_balance < amount {
        return Err(VaultError::InsufficientLiquidity);
    }
    let mut v = *vault;
    let mut d = *vault_depositor;
    v.pending_unstake_shares = v.pending_unstake_shares.safe_sub(shares)?;
    v.reserved_assets = v.reserved_assets.safe_sub(amount)?;
    v.total_shares = v.total_shares.safe_sub(shares)?;
    v.total_assets = v.total_assets.safe_sub(amount)?;
    d.total_unstaked = d.total_unstaked.safe_add(amount)?;
    d.unstake_request.reset();
    v.verify_invariants()?;
    *vault = v;
    *vault_depositor = d;
    Ok(amount)
}

/// Bring a depositor record up to date with the vault's rebases.
pub fn sync_rebase(vault: &Vault, vault_depositor: &mut VaultDepositor) -> (r: VaultResult<()>)
    requires
        vault.shares_base <= 38,
    ensures
        r == Ok::<(), VaultError>(()),
        *final(vault_depositor) == spec_sync_rebase(*vault, *old(vault_depositor)),
{
    if vault_depositor.needs_rebase_sync(vault.rebase_version) {
        if vault.shares_base > 0 {
            let rebase_divisor = Vault::pow10_u128(vault.shares_base);
            vault_depositor.apply_rebase(rebase_divisor, vault.rebase_version)?;
        } else {
            // No contraction has happened; just record the version so later
            // calls can skip the sync.
            vault_depositor.last_rebase_version = vault.rebase_version;
        }
    }
    Ok(())
}

/// Redeem owner fee shares for assets at the total ratio; the caller
/// transfers the returned amount to the owner.  The whole call applies or
/// nothing does.
pub fn withdraw_management_fee(vault: &mut Vault, shares_to_withdraw: Option<u64>) -> (r: VaultResult<u64>)
    requires
        old(vault).wf(),
    ensures
        final(vault).wf(),
        (match spec_withdraw_management_fee(*old(vault), shares_to_withdraw) {
            Ok(p) => r == Ok::<u64, VaultError>(p.1) && *final(vault) == p.0,
            Err(e) => r == Err::<u64, VaultError>(e) && *final(vault) == *old(vault),
        }),
{
    if vault.owner_shares == 0 {
        return Err(VaultError::InsufficientFunds);
    }
    let shares = shares_to_withdraw.unwrap_or(vault.owner_shares);
    if shares == 0 {
        return Err(VaultError::InvalidAmount);
    }
    if shares > vault.owner_shares {
        return Err(VaultError::InsufficientFunds);
    }
    if vault.total_shares < shares {
        return Err(VaultError::InsufficientFunds);
    }
    let assets = calculate_assets(shares, vault.total_shares, vault.total_assets)?;
    if assets == 0 {
        return Err(VaultError::InvalidAmount);
    }
    let mut v = *vault;
    v.total_shares = v.total_shares.safe_sub(shares)?;
    v.total_assets = v.total_assets.safe_sub(assets)?;
    v.owner_shares = v.owner_shares.safe_sub(shares)?;
    v.verify_invariants()?;
    *vault = v;
    Ok(assets)
}

/// Split a reward deposit between the pool and the platform account; within
/// the documented basis-point range the two parts always rebuild the whole.
pub fn split_reward(amount: u64, platform_share_bps: u64) -> (r: VaultResult<(u64, u64)>)
    ensures
        r == spec_split_reward(amount, platform_share_bps),
        platform_share_bps <= BASIS_POINTS_PRECISION ==> (r matches Ok(p) && p.0 + p.1 == amount),
{
    proof {
        lemma_u64_mul_fits_u128(amount as int, platform_share_bps as int);
        if platform_share_bps <= BASIS_POINTS_PRECISION {
            assert(amount * platform_share_bps <= amount * BASIS_POINTS_PRECISION)
                by (nonlinear_arith)
                requires
                    0 <= amount,
                    platform_share_bps <= BASIS_POINTS_PRECISION,
            ;
            assert(amount * BASIS_POINTS_PRECISION / (BASIS_POINTS_PRECISION as int) == amount);
        }
    }
    let platform_share: u64 = ((amount as u128).safe_mul(platform_share_bps as u128)?.safe_div(
        BASIS_POINTS_PRECISION as u128,
    )?).safe_cast()?;
    let vault_share = amount.safe_sub(platform_share)?;
    Ok((vault_share, platform_share))
}

/// Invariant-preservation law for the lifecycle transitions: from a state
/// satisfying the accounting invariants, a successful request, cancel or
/// execute yields a vault that satisfies them again.
pub proof fn lemma_lifecycle_preserves_invariants(
    v: Vault,
    d: VaultDepositor,
    amount: u64,
    now: i64,
    vault_token_balance: u64,
)
    requires
        v.inv(),
    ensures
        spec_request_unstake(v, d, amount, now) matches Ok(p) ==> p.0.inv(),
        spec_cancel_unstake(v, d) matches Ok(p) ==> p.0.inv(),
        spec_execute_unstake(v, d, now, vault_token_balance) matches Ok(t) ==> t.0.inv(),
        spec_stake_flow(v, d, amount, now) matches Ok(t) ==> t.0.inv(),
        spec_withdraw_management_fee(v, Some(amount)) matches Ok(p) ==> p.0.inv(),
        spec_withdraw_management_fee(v, None) matches Ok(p) ==> p.0.inv(),
{
    v.lemma_transitions_preserve_invariants(amount, amount, now, arbitrary());
}

/// Cancel-restores law: a request followed directly by its cancel returns
/// the depositor's active balance and the vault's share counters exactly to
/// their pre-request values and clears the request; the asset total moves
/// only by the reward drift — the difference between the cancel-time and
/// request-time valuations of the frozen shares.
pub proof fn lemma_cancel_restores_request(
    v: Vault,
    d: VaultDepositor,
    amount: u64,
    now: i64,
    v1: Vault,
    d1: VaultDepositor,
    v2: Vault,
    d2: VaultDepositor,
)
    requires
        !d.unstake_request.spec_is_pending(),
        spec_request_unstake(v, d, amount, now) == Ok::<(Vault, VaultDepositor), VaultError>(
            (v1, d1),
        ),
        spec_cancel_unstake(v1, d1) == Ok::<(Vault, VaultDepositor), VaultError>((v2, d2)),
    ensures
        d2.shares == d.shares,
        !d2.unstake_request.spec_is_pending(),
        v2.total_shares == v.total_shares,
        v2.pending_unstake_shares == v.pending_unstake_shares,
        v2.owner_shares == v.owner_shares,
        ({
            let req = d1.unstake_request;
            &&& spec_frozen_amount(req.shares, req.asset_per_share_at_request) matches Ok(frozen)
                && (v1.spec_active_share_value() matches Ok(current_rate)
                && (spec_frozen_amount(req.shares, current_rate) matches Ok(current_value)
                && v2.total_assets == v.total_assets + current_value - frozen
                && v2.reserved_assets == v1.reserved_assets - frozen))
        }),
{
}

/// Frozen-payout law: when execute succeeds, it pays exactly
/// `asset_per_share_at_request * shares / PRECISION`.
pub proof fn lemma_execute_pays_frozen_amount(
    v: Vault,
    d: VaultDepositor,
    now: i64,
    vault_token_balance: u64,
)
    ensures
        spec_execute_unstake(v, d, now, vault_token_balance) matches Ok(t) ==> Ok::<
            u64,
            VaultError,
        >(t.2) == spec_frozen_amount(
            d.unstake_request.shares,
            d.unstake_request.asset_per_share_at_request,
        ),
{
}

/// Reward-independence law: rewards added while a request is pending change
/// neither whether execute succeeds nor what it pays.
pub proof fn lemma_execute_unaffected_by_add_rewards(
    v: Vault,
    v1: Vault,
    d: VaultDepositor,
    reward: u64,
    reward_time: i64,
    now: i64,
    vault_token_balance: u64,
    t: (Vault, VaultDepositor, u64),
)
    requires
        v.inv(),
        v.spec_add_rewards(reward, reward_time) == Ok::<Vault, VaultError>(v1),
        spec_execute_unstake(v, d, now, vault_token_balance) == Ok::<
            (Vault, VaultDepositor, u64),
            VaultError,
        >(t),
    ensures
        spec_execute_unstake(v1, d, now, vault_token_balance) matches Ok(t1) && t1.2 == t.2,
{
}

} // verus!
