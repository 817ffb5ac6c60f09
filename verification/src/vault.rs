use vstd::prelude::*;

use crate::constants::{
    DEFAULT_MANAGEMENT_FEE, DEFAULT_UNSTAKE_LOCKUP, MAX_INACTIVE_PERIOD, MAX_MANAGEMENT_FEE,
    MAX_REBASE_RATIO, MAX_UNSTAKE_LOCKUP_DAYS, MIN_UNSTAKE_LOCKUP_MINUTES, ONE_DAY, ONE_MINUTE,
    PRECISION,
};
use crate::error::{VaultError, VaultResult};
use crate::math::{lemma_div_le_dividend, lemma_u64_mul_fits_u128, SafeCast, SafeMath};
use crate::vault_math::{
    calculate_management_fee, calculate_rebase_factor, calculate_rewards_per_share,
    calculate_shares, lemma_pow10_38_fits, lemma_pow10_increases, lemma_pow10_pos,
    lemma_rebase_search_le_20, pow10, rebase_search, spec_calculate_management_fee,
    spec_calculate_rewards_per_share, spec_calculate_shares, spec_rebase_factor,
};

verus! {

/// An opaque account identifier.  Authorization, address derivation and
/// signing are external collaborators; the ledger only stores and hands back
/// these identifiers.
pub type AccountId = u128;

/// The mutable aggregate record of one pool: accounting totals, pricing
/// state, configuration and timestamps.
#[derive(Clone, Copy, Debug)]
pub struct Vault {
    /// The name of the vault.
    pub name: AccountId,
    /// The vault's own account.
    pub pubkey: AccountId,
    /// The owner/admin of the vault.
    pub owner: AccountId,
    /// The platform account receiving the platform's reward share.
    pub platform_account: AccountId,
    /// The asset type accepted for staking.
    pub token_mint: AccountId,
    /// The custodial account holding the pooled balance.
    pub vault_token_account: AccountId,
    /// Total supply of shares.
    pub total_shares: u64,
    /// Total assets in the vault.
    pub total_assets: u64,
    /// Total rewards distributed.
    pub total_rewards: u64,
    /// Legacy rewards accumulator (scaled by `SHARE_PRECISION`).
    pub rewards_per_share: u128,
    /// Last time rewards were updated.
    pub last_rewards_update: i64,
    /// Unstake lockup period in seconds.
    pub unstake_lockup_period: i64,
    /// Management fee in basis points.
    pub management_fee: u64,
    /// Minimum stake amount.
    pub min_stake_amount: u64,
    /// Maximum total assets.
    pub max_total_assets: u64,
    /// Whether the vault is paused.
    pub is_paused: bool,
    /// Vault creation timestamp.
    pub created_at: i64,
    /// Last fee accrual timestamp.
    pub last_fee_update: i64,
    /// Cumulative rebase exponent.
    pub shares_base: u32,
    /// Monotonic counter bumped on every rebase.
    pub rebase_version: u32,
    /// Shares accumulated by the owner through management fees.
    pub owner_shares: u64,
    /// Shares earmarked by pending unstake requests.
    pub pending_unstake_shares: u64,
    /// Assets reserved to pay pending unstake requests.
    pub reserved_assets: u64,
}

/// Configuration for a new vault; an absent field takes its default.
#[derive(Clone, Copy, Debug)]
pub struct InitializeVaultParams {
    pub unstake_lockup_period: Option<i64>,
    pub management_fee: Option<u64>,
    pub min_stake_amount: Option<u64>,
    pub max_total_assets: Option<u64>,
}

/// A partial configuration update; an absent field is left unchanged.
#[derive(Clone, Copy, Debug)]
pub struct UpdateVaultConfigParams {
    pub unstake_lockup_period: Option<i64>,
    pub management_fee: Option<u64>,
    pub min_stake_amount: Option<u64>,
    pub max_total_assets: Option<u64>,
    pub is_paused: Option<bool>,
    pub platform_account: Option<AccountId>,
}

impl Vault {
    /// The accounting invariants: reserved assets never exceed total assets,
    /// and pending shares never exceed total shares.  Every mutating
    /// operation re-establishes them or aborts without committing.
    pub open spec fn inv(self) -> bool {
        &&& self.reserved_assets <= self.total_assets
        &&& self.pending_unstake_shares <= self.total_shares
    }

    /// Well-formedness: the accounting invariants plus sanity of the
    /// timestamp and lockup fields, which the clock collaborator keeps
    /// non-negative.
    pub open spec fn wf(self) -> bool {
        &&& self.inv()
        &&& 0 <= self.created_at
        &&& 0 <= self.last_rewards_update
        &&& 0 <= self.last_fee_update
        &&& 0 <= self.unstake_lockup_period
    }

    /// Assets that actively participate in rewards.
    pub open spec fn spec_available_assets(self) -> int {
        self.total_assets - self.reserved_assets
    }

    /// Shares that actively participate in rewards.
    pub open spec fn spec_active_shares(self) -> int {
        self.total_shares - self.pending_unstake_shares
    }

    /// The active share value `available_assets * PRECISION / active_shares`,
    /// one-to-one when no share is active.
    pub open spec fn spec_active_share_value(self) -> VaultResult<u128> {
        if self.reserved_assets > self.total_assets {
            Err(VaultError::MathOverflow)
        } else if self.pending_unstake_shares > self.total_shares {
            Err(VaultError::MathOverflow)
        } else if self.spec_active_shares() == 0 {
            Ok(PRECISION as u128)
        } else {
            Ok((self.spec_available_assets() * PRECISION / self.spec_active_shares()) as u128)
        }
    }

    /// The rebase transition: when shares exceed assets, divide the share
    /// supply by the rebase factor, record the exponent and bump the version;
    /// refuse outright a ratio beyond `MAX_REBASE_RATIO` or a result that
    /// breaks the accounting invariants.
    pub open spec fn spec_apply_rebase(self) -> VaultResult<(Vault, Option<u128>)> {
        if self.total_assets == 0 || self.total_shares <= self.total_assets {
            Ok((self, None))
        } else {
            let ratio = self.total_shares as int / self.total_assets as int;
            if ratio > MAX_REBASE_RATIO {
                Err(VaultError::InvariantViolation)
            } else {
                let f = spec_rebase_factor(self.total_shares, self.total_assets);
                if f.0 > 0 {
                    if self.shares_base + f.0 > u32::MAX {
                        Err(VaultError::MathOverflow)
                    } else if self.rebase_version + 1 > u32::MAX {
                        Err(VaultError::MathOverflow)
                    } else {
                        let v = Vault {
                            total_shares: (self.total_shares as int / f.1 as int) as u64,
                            shares_base: (self.shares_base + f.0) as u32,
                            rebase_version: (self.rebase_version + 1) as u32,
                            ..self
                        };
                        if v.inv() {
                            Ok((v, Some(f.1)))
                        } else {
                            Err(VaultError::InvariantViolation)
                        }
                    }
                } else {
                    Ok((self, None))
                }
            }
        }
    }

    /// The share price applied to a deposit of `amount` (three regimes):
    /// one-to-one on true bootstrap; the active share value normally; and,
    /// when every share is pending, the last total ratio, falling back to
    /// one-to-one after a long idle window so the pool cannot be bricked.
    pub open spec fn spec_stake_shares(self, amount: u64, now: i64) -> VaultResult<u64> {
        if self.pending_unstake_shares > self.total_shares {
            Err(VaultError::MathOverflow)
        } else if self.spec_active_shares() == 0 {
            if self.total_shares == 0 {
                Ok(amount)
            } else if now - self.last_rewards_update > MAX_INACTIVE_PERIOD {
                Ok(amount)
            } else {
                let pending_share_value = self.total_assets * PRECISION / (self.total_shares as int);
                if pending_share_value == 0 {
                    Err(VaultError::DivisionByZero)
                } else {
                    let s = amount * PRECISION / pending_share_value;
                    if s > u64::MAX {
                        Err(VaultError::MathOverflow)
                    } else {
                        Ok(s as u64)
                    }
                }
            }
        } else {
            match self.spec_active_share_value() {
                Err(e) => Err(e),
                Ok(asv) => {
                    if asv == 0 {
                        Err(VaultError::DivisionByZero)
                    } else {
                        let s = amount * PRECISION / (asv as int);
                        if s > u64::MAX {
                            Err(VaultError::MathOverflow)
                        } else {
                            Ok(s as u64)
                        }
                    }
                }
            }
        }
    }

    /// The stake transition: configuration guards, an opportunistic rebase,
    /// pricing per `spec_stake_shares`, then both totals grow.
    pub open spec fn spec_stake(self, amount: u64, now: i64) -> VaultResult<(Vault, u64)> {
        if self.is_paused {
            Err(VaultError::VaultPaused)
        } else if amount < self.min_stake_amount {
            Err(VaultError::MinimumStakeAmountNotMet)
        } else if self.total_assets + amount > u64::MAX {
            Err(VaultError::MathOverflow)
        } else if self.total_assets + amount > self.max_total_assets {
            Err(VaultError::VaultIsFull)
        } else {
            match self.spec_apply_rebase() {
                Err(e) => Err(e),
                Ok(p) => {
                    let v = p.0;
                    match v.spec_stake_shares(amount, now) {
                        Err(e) => Err(e),
                        Ok(shares) => {
                            if v.total_shares + shares > u64::MAX {
                                Err(VaultError::MathOverflow)
                            } else {
                                Ok(
                                    (
                                        Vault {
                                            total_shares: (v.total_shares + shares) as u64,
                                            total_assets: (v.total_assets + amount) as u64,
                                            ..v
                                        },
                                        shares,
                                    ),
                                )
                            }
                        }
                    }
                }
            }
        }
    }

    /// The direct unstake transition: an opportunistic rebase, the shares
    /// priced at the active share value, then both totals shrink.
    pub open spec fn spec_unstake(self, shares: u64) -> VaultResult<(Vault, u64)> {
        if shares == 0 {
            Err(VaultError::InvalidAmount)
        } else if shares > self.total_shares {
            Err(VaultError::InsufficientFunds)
        } else {
            match self.spec_apply_rebase() {
                Err(e) => Err(e),
                Ok(p) => {
                    let v = p.0;
                    match v.spec_active_share_value() {
                        Err(e) => Err(e),
                        Ok(asv) => {
                            if shares * asv > u128::MAX {
                                Err(VaultError::MathOverflow)
                            } else {
                                let assets = shares * asv / (PRECISION as int);
                                if assets > u64::MAX {
                                    Err(VaultError::MathOverflow)
                                } else if shares > v.total_shares {
                                    Err(VaultError::MathOverflow)
                                } else if assets > v.total_assets {
                                    Err(VaultError::MathOverflow)
                                } else {
                                    let v2 = Vault {
                                        total_shares: (v.total_shares - shares) as u64,
                                        total_assets: (v.total_assets - assets) as u64,
                                        ..v
                                    };
                                    if v2.inv() {
                                        Ok((v2, assets as u64))
                                    } else {
                                        Err(VaultError::InvariantViolation)
                                    }
                                }
                            }
                        }
                    }
                }
            }
        }
    }

    /// The reward transition: rewards raise the asset balance (compounding
    /// into share value, never minting shares); the legacy accumulator is
    /// advanced over active shares only, so frozen shares get no upside.
    pub open spec fn spec_add_rewards(self, amount: u64, now: i64) -> VaultResult<Vault> {
        match self.spec_apply_rebase() {
            Err(e) => Err(e),
            Ok(p) => {
                let v = p.0;
                if v.pending_unstake_shares > v.total_shares {
                    Err(VaultError::MathOverflow)
                } else if v.total_assets + amount > u64::MAX {
                    Err(VaultError::MathOverflow)
                } else if v.total_rewards + amount > u64::MAX {
                    Err(VaultError::MathOverflow)
                } else {
                    let active = (v.total_shares - v.pending_unstake_shares) as u64;
                    if active > 0 {
                        match spec_calculate_rewards_per_share(amount, active, v.rewards_per_share) {
                            Err(e) => Err(e),
                            Ok(rps) => Ok(
                                Vault {
                                    total_assets: (v.total_assets + amount) as u64,
                                    total_rewards: (v.total_rewards + amount) as u64,
                                    rewards_per_share: rps,
                                    last_rewards_update: now,
                                    ..v
                                },
                            ),
                        }
                    } else {
                        Ok(
                            Vault {
                                total_assets: (v.total_assets + amount) as u64,
                                total_rewards: (v.total_rewards + amount) as u64,
                                last_rewards_update: now,
                                ..v
                            },
                        )
                    }
                }
            }
        }
    }

    /// The fee transition: time running backwards is a fatal configuration
    /// error; otherwise the prorated fee is converted into newly minted
    /// shares credited to the owner (diluting every other holder), with a
    /// single mint capped at a tenth of the supply.
    pub open spec fn spec_apply_management_fee(self, now: i64) -> VaultResult<(Vault, u64)> {
        if now < self.last_fee_update {
            Err(VaultError::InvalidVaultConfig)
        } else if now == self.last_fee_update {
            Ok((self, 0u64))
        } else {
            match spec_calculate_management_fee(
                self.total_assets,
                self.management_fee,
                (now - self.last_fee_update) as i64,
            ) {
                Err(e) => Err(e),
                Ok(fee_amount) => {
                    if fee_amount > 0 && self.total_shares > 0 {
                        match spec_calculate_shares(fee_amount, self.total_shares, self.total_assets) {
                            Err(e) => Err(e),
                            Ok(fee_shares) => {
                                if fee_shares > self.total_shares / 10 {
                                    Err(VaultError::InvalidAmount)
                                } else if self.total_shares + fee_shares > u64::MAX {
                                    Err(VaultError::MathOverflow)
                                } else if self.owner_shares + fee_shares > u64::MAX {
                                    Err(VaultError::MathOverflow)
                                } else {
                                    Ok(
                                        (
                                            Vault {
                                                total_shares: (self.total_shares + fee_shares) as u64,
                                                owner_shares: (self.owner_shares + fee_shares) as u64,
                                                last_fee_update: now,
                                                ..self
                                            },
                                            fee_shares,
                                        ),
                                    )
                                }
                            }
                        }
                    } else {
                        Ok((Vault { last_fee_update: now, ..self }, 0u64))
                    }
                }
            }
        }
    }

    /// The configuration-update transition: each present field is validated
    /// against its own bound, then all present fields are applied together.
    pub open spec fn spec_update_config(self, params: UpdateVaultConfigParams) -> VaultResult<Vault> {
        let lockup_bad = match params.unstake_lockup_period {
            Some(l) => l < MIN_UNSTAKE_LOCKUP_MINUTES * ONE_MINUTE || l > MAX_UNSTAKE_LOCKUP_DAYS
                * ONE_DAY,
            None => false,
        };
        let fee_bad = match params.management_fee {
            Some(f) => f > MAX_MANAGEMENT_FEE,
            None => false,
        };
        if lockup_bad || fee_bad {
            Err(VaultError::InvalidVaultConfig)
        } else {
            Ok(
                Vault {
                    unstake_lockup_period: params.unstake_lockup_period.unwrap_or(
                        self.unstake_lockup_period,
                    ),
                    management_fee: params.management_fee.unwrap_or(self.management_fee),
                    min_stake_amount: params.min_stake_amount.unwrap_or(self.min_stake_amount),
                    max_total_assets: params.max_total_assets.unwrap_or(self.max_total_assets),
                    is_paused: params.is_paused.unwrap_or(self.is_paused),
                    platform_account: params.platform_account.unwrap_or(self.platform_account),
                    ..self
                },
            )
        }
    }

    /// The initial state of a vault under `params` (absent fields take the
    /// documented defaults), after validating the configuration bounds.
    pub open spec fn spec_initialize(
        name: AccountId,
        pubkey: AccountId,
        owner: AccountId,
        platform_account: AccountId,
        token_mint: AccountId,
        vault_token_account: AccountId,
        params: InitializeVaultParams,
        now: i64,
    ) -> VaultResult<Vault> {
        let lockup = params.unstake_lockup_period.unwrap_or(DEFAULT_UNSTAKE_LOCKUP);
        let fee = params.management_fee.unwrap_or(DEFAULT_MANAGEMENT_FEE);
        let min_stake = params.min_stake_amount.unwrap_or(0u64);
        let max_assets = params.max_total_assets.unwrap_or(u64::MAX);
        if lockup < MIN_UNSTAKE_LOCKUP_MINUTES * ONE_MINUTE || lockup > MAX_UNSTAKE_LOCKUP_DAYS
            * ONE_DAY {
            Err(VaultError::InvalidVaultConfig)
        } else if fee > MAX_MANAGEMENT_FEE {
            Err(VaultError::InvalidVaultConfig)
        } else if min_stake > max_assets / 2 {
            Err(VaultError::InvalidVaultConfig)
        } else {
            Ok(
                Vault {
                    name,
                    pubkey,
                    owner,
                    platform_account,
                    token_mint,
                    vault_token_account,
                    total_shares: 0,
                    total_assets: 0,
                    total_rewards: 0,
                    rewards_per_share: 0,
                    last_rewards_update: now,
                    unstake_lockup_period: lockup,
                    management_fee: fee,
                    min_stake_amount: min_stake,
                    max_total_assets: max_assets,
                    is_paused: false,
                    created_at: now,
                    last_fee_update: now,
                    shares_base: 0,
                    rebase_version: 0,
                    owner_shares: 0,
                    pending_unstake_shares: 0,
                    reserved_assets: 0,
                },
            )
        }
    }

    /// Set up a fresh vault, validating the configuration bounds; on failure
    /// the record is left untouched.
    pub fn initialize(
        &mut self,
        name: AccountId,
        pubkey: AccountId,
        owner: AccountId,
        platform_account: AccountId,
        token_mint: AccountId,
        vault_token_account: AccountId,
        params: InitializeVaultParams,
        now: i64,
    ) -> (r: VaultResult<()>)
        requires
            0 <= now,
        ensures
            (match Vault::spec_initialize(
                name,
                pubkey,
                owner,
                platform_account,
                token_mint,
                vault_token_account,
                params,
                now,
            ) {
                Ok(v) => r == Ok::<(), VaultError>(()) && *final(self) == v && final(self).wf(),
                Err(e) => r == Err::<(), VaultError>(e) && *final(self) == *old(self),
            }),
    {
        let unstake_lockup_period = params.unstake_lockup_period.unwrap_or(DEFAULT_UNSTAKE_LOCKUP);
        let management_fee = params.management_fee.unwrap_or(DEFAULT_MANAGEMENT_FEE);
        let min_stake_amount = params.min_stake_amount.unwrap_or(0);
        let max_total_assets = params.max_total_assets.unwrap_or(u64::MAX);
        if unstake_lockup_period < MIN_UNSTAKE_LOCKUP_MINUTES * ONE_MINUTE
            || unstake_lockup_period > MAX_UNSTAKE_LOCKUP_DAYS * ONE_DAY {
            return Err(VaultError::InvalidVaultConfig);
        }
        if management_fee > MAX_MANAGEMENT_FEE {
            return Err(VaultError::InvalidVaultConfig);
        }
        if min_stake_amount > max_total_assets / 2 {
            return Err(VaultError::InvalidVaultConfig);
        }
        *self = Vault {
            name,
            pubkey,
            owner,
            platform_account,
            token_mint,
            vault_token_account,
            total_shares: 0,
            total_assets: 0,
            total_rewards: 0,
            rewards_per_share: 0,
            last_rewards_update: now,
            unstake_lockup_period,
            management_fee,
            min_stake_amount,
            max_total_assets,
            is_paused: false,
            created_at: now,
            last_fee_update: now,
            shares_base: 0,
            rebase_version: 0,
            owner_shares: 0,
            pending_unstake_shares: 0,
            reserved_assets: 0,
        };
        Ok(())
    }

    /// Assets not reserved for pending requests.
    pub fn get_available_assets(&self) -> (r: VaultResult<u64>)
        ensures
            self.reserved_assets <= self.total_assets ==> r == Ok::<u64, VaultError>(
                self.spec_available_assets() as u64,
            ),
            self.reserved_assets > self.total_assets ==> r == Err::<u64, VaultError>(
                VaultError::MathOverflow,
            ),
    {
        self.total_assets.safe_sub(self.reserved_assets)
    }

    /// Shares not earmarked by pending requests.
    pub fn get_active_shares(&self) -> (r: VaultResult<u64>)
        ensures
            self.pending_unstake_shares <= self.total_shares ==> r == Ok::<u64, VaultError>(
                self.spec_active_shares() as u64,
            ),
            self.pending_unstake_shares > self.total_shares ==> r == Err::<u64, VaultError>(
                VaultError::MathOverflow,
            ),
    {
        self.total_shares.safe_sub(self.pending_unstake_shares)
    }

    /// The current share value for active participants,
    /// `available_assets * PRECISION / active_shares`; one-to-one when no
    /// share is active.
    pub fn get_active_share_value(&self) -> (r: VaultResult<u128>)
        ensures
            r == self.spec_active_share_value(),
    {
        let available_assets = self.get_available_assets()?;
        let active_shares = self.get_active_shares()?;
        if active_shares == 0 {
            return Ok(PRECISION as u128);
        }
        proof {
            lemma_u64_mul_fits_u128(available_assets as int, PRECISION as int);
        }
        SafeCast::<u128>::safe_cast(&available_assets)?.safe_mul(PRECISION as u128)?.safe_div(
            active_shares as u128,
        )
    }

    /// Check the accounting invariants of §`inv`; a violation is fatal and is
    /// never auto-repaired, since it signals a logic defect.
    pub fn verify_invariants(&self) -> (r: VaultResult<()>)
        ensures
            r.is_ok() <==> self.inv(),
            r is Err ==> r == Err::<(), VaultError>(VaultError::InvariantViolation),
    {
        if self.reserved_assets > self.total_assets {
            return Err(VaultError::InvariantViolation);
        }
        if self.pending_unstake_shares > self.total_shares {
            return Err(VaultError::InvariantViolation);
        }
        Ok(())
    }

    /// Contract the share supply by a power of ten when shares outgrow
    /// assets, so per-share value cannot drift arbitrarily small.  Returns
    /// the divisor applied, if any.  The whole call applies or nothing does.
    pub fn apply_rebase(&mut self) -> (r: VaultResult<Option<u128>>)
        requires
            old(self).wf(),
        ensures
            final(self).wf(),
            (match old(self).spec_apply_rebase() {
                Ok(p) => r == Ok::<Option<u128>, VaultError>(p.1) && *final(self) == p.0,
                Err(e) => r == Err::<Option<u128>, VaultError>(e) && *final(self) == *old(self),
            }),
    {
        if self.total_assets == 0 || self.total_shares <= self.total_assets {
            return Ok(None);
        }
        // Refuse an extreme rebase: such a ratio signals an accounting bug.
        let ratio = (self.total_shares as u128).safe_div(self.total_assets as u128)?;
        if ratio > MAX_REBASE_RATIO {
            return Err(VaultError::InvariantViolation);
        }
        let (expo_diff, rebase_divisor) = calculate_rebase_factor(self.total_shares, self.total_assets)?;
        if expo_diff > 0 {
            proof {
                let ratio_i = self.total_shares as int / self.total_assets as int;
                let k = rebase_search(ratio_i, 0);
                lemma_rebase_search_le_20(ratio_i, 0);
                lemma_pow10_pos(k);
                lemma_pow10_increases(k, 38);
                lemma_pow10_38_fits();
                assert(rebase_divisor == pow10(k));
                lemma_div_le_dividend(self.total_shares as int, rebase_divisor as int);
            }
            let reduced: u64 = (SafeCast::<u128>::safe_cast(&self.total_shares)?.safe_div(
                rebase_divisor,
            )?).safe_cast()?;
            let new_shares_base = self.shares_base.safe_add(expo_diff)?;
            let new_rebase_version = self.rebase_version.safe_add(1)?;
            let next = Vault {
                total_shares: reduced,
                shares_base: new_shares_base,
                rebase_version: new_rebase_version,
                ..*self
            };
            next.verify_invariants()?;
            *self = next;
            return Ok(Some(rebase_divisor));
        }
        Ok(None)
    }

    /// Stake `amount` assets (already transferred into custody by the
    /// caller) and mint the priced shares.  The whole call applies or
    /// nothing does.
    pub fn stake(&mut self, amount: u64, now: i64) -> (r: VaultResult<u64>)
        requires
            old(self).wf(),
            0 <= now,
        ensures
            final(self).wf(),
            (match old(self).spec_stake(amount, now) {
                Ok(p) => r == Ok::<u64, VaultError>(p.1) && *final(self) == p.0,
                Err(e) => r == Err::<u64, VaultError>(e) && *final(self) == *old(self),
            }),
    {
        if self.is_paused {
            return Err(VaultError::VaultPaused);
        }
        if amount < self.min_stake_amount {
            return Err(VaultError::MinimumStakeAmountNotMet);
        }
        if self.total_assets.safe_add(amount)? > self.max_total_assets {
            return Err(VaultError::VaultIsFull);
        }
        let mut next = *self;
        next.apply_rebase()?;
        // Price the deposit against the active share value, never the naive
        // total ratio, so frozen resources neither dilute nor subsidize new
        // stakers.
        let shares: u64 = if next.get_active_shares()? == 0 {
            if next.total_shares == 0 {
                // True bootstrap: first shares ever, one-to-one.
                amount
            } else {
                // Every share is pending unstake.  After a long idle window
                // the pool restarts at one-to-one; otherwise price against
                // the last total ratio to protect the pending holders.
                let vault_inactive_time = now - next.last_rewards_update;
                if vault_inactive_time > MAX_INACTIVE_PERIOD {
                    amount
                } else {
                    proof {
                        lemma_u64_mul_fits_u128(next.total_assets as int, PRECISION as int);
                        lemma_u64_mul_fits_u128(amount as int, PRECISION as int);
                    }
                    let pending_share_value = SafeCast::<u128>::safe_cast(&next.total_assets)?
                        .safe_mul(PRECISION as u128)?
                        .safe_div(SafeCast::<u128>::safe_cast(&next.total_shares)?)?;
                    let s = SafeCast::<u128>::safe_cast(&amount)?.safe_mul(PRECISION as u128)?
                        .safe_div(pending_share_value)?;
                    s.safe_cast()?
                }
            }
        } else {
            let active_share_value = next.get_active_share_value()?;
            proof {
                lemma_u64_mul_fits_u128(amount as int, PRECISION as int);
            }
            let s = SafeCast::<u128>::safe_cast(&amount)?.safe_mul(PRECISION as u128)?.safe_div(
                active_share_value,
            )?;
            s.safe_cast()?
        };
        next.total_shares = next.total_shares.safe_add(shares)?;
        next.total_assets = next.total_assets.safe_add(amount)?;
        next.verify_invariants()?;
        *self = next;
        Ok(shares)
    }

    /// Redeem `shares` at the active share value, shrinking both totals.
    /// The caller pays out the returned asset amount.  The whole call
    /// applies or nothing does.
    pub fn unstake(&mut self, shares: u64) -> (r: VaultResult<u64>)
        requires
            old(self).wf(),
        ensures
            final(self).wf(),
            (match old(self).spec_unstake(shares) {
                Ok(p) => r == Ok::<u64, VaultError>(p.1) && *final(self) == p.0,
                Err(e) => r == Err::<u64, VaultError>(e) && *final(self) == *old(self),
            }),
    {
        if shares == 0 {
            return Err(VaultError::InvalidAmount);
        }
        if shares > self.total_shares {
            return Err(VaultError::InsufficientFunds);
        }
        let mut next = *self;
        next.apply_rebase()?;
        let active_share_value = next.get_active_share_value()?;
        let assets: u64 = (SafeCast::<u128>::safe_cast(&shares)?.safe_mul(active_share_value)?
            .safe_div(PRECISION as u128)?).safe_cast()?;
        next.total_shares = next.total_shares.safe_sub(shares)?;
        next.total_assets = next.total_assets.safe_sub(assets)?;
        next.verify_invariants()?;
        *self = next;
        Ok(assets)
    }

    /// Compound `amount` of rewards into the pool: assets rise, shares stay,
    /// and the legacy accumulator advances over active shares only.  The
    /// whole call applies or nothing does.
    pub fn add_rewards(&mut self, amount: u64, now: i64) -> (r: VaultResult<()>)
        requires
            old(self).wf(),
            0 <= now,
        ensures
            final(self).wf(),
            (match old(self).spec_add_rewards(amount, now) {
                Ok(v) => r == Ok::<(), VaultError>(()) && *final(self) == v,
                Err(e) => r == Err::<(), VaultError>(e) && *final(self) == *old(self),
            }),
    {
        let mut next = *self;
        next.apply_rebase()?;
        let active_shares = next.get_active_shares()?;
        next.total_assets = next.total_assets.safe_add(amount)?;
        next.total_rewards = next.total_rewards.safe_add(amount)?;
        if active_shares > 0 {
            // Frozen shares get no floating upside: their redemption value
            // was fixed at request time.
            next.rewards_per_share = calculate_rewards_per_share(
                amount,
                active_shares,
                next.rewards_per_share,
            )?;
        }
        next.last_rewards_update = now;
        next.verify_invariants()?;
        *self = next;
        Ok(())
    }

    /// Accrue the time-prorated management fee by minting shares to the
    /// owner; a clock that ran backwards is a fatal configuration error.
    /// Returns the shares minted.  The whole call applies or nothing does.
    pub fn apply_management_fee(&mut self, now: i64) -> (r: VaultResult<u64>)
        requires
            old(self).wf(),
            0 <= now,
        ensures
            final(self).wf(),
            (match old(self).spec_apply_management_fee(now) {
                Ok(p) => r == Ok::<u64, VaultError>(p.1) && *final(self) == p.0,
                Err(e) => r == Err::<u64, VaultError>(e) && *final(self) == *old(self),
            }),
    {
        if now < self.last_fee_update {
            return Err(VaultError::InvalidVaultConfig);
        }
        let time_elapsed = now.safe_sub(self.last_fee_update)?;
        if time_elapsed <= 0 {
            return Ok(0);
        }
        let fee_amount = calculate_management_fee(
            self.total_assets,
            self.management_fee,
            time_elapsed,
            self.last_fee_update,
        )?;
        if fee_amount > 0 && self.total_shares > 0 {
            let fee_shares = calculate_shares(fee_amount, self.total_shares, self.total_assets)?;
            // Circuit breaker: a single accrual never mints more than a
            // tenth of the supply.
            let max_fee_shares = self.total_shares.safe_div(10)?;
            if fee_shares > max_fee_shares {
                return Err(VaultError::InvalidAmount);
            }
            let new_total_shares = self.total_shares.safe_add(fee_shares)?;
            let new_owner_shares = self.owner_shares.safe_add(fee_shares)?;
            self.total_shares = new_total_shares;
            self.owner_shares = new_owner_shares;
            self.last_fee_update = now;
            return Ok(fee_shares);
        }
        self.last_fee_update = now;
        Ok(0)
    }

    /// Apply a partial configuration update; every present field is
    /// validated before any is applied.
    pub fn update_config(&mut self, params: UpdateVaultConfigParams) -> (r: VaultResult<()>)
        requires
            old(self).wf(),
        ensures
            final(self).wf(),
            (match old(self).spec_update_config(params) {
                Ok(v) => r == Ok::<(), VaultError>(()) && *final(self) == v,
                Err(e) => r == Err::<(), VaultError>(e) && *final(self) == *old(self),
            }),
    {
        if let Some(unstake_lockup_period) = params.unstake_lockup_period {
            if unstake_lockup_period < MIN_UNSTAKE_LOCKUP_MINUTES * ONE_MINUTE
                || unstake_lockup_period > MAX_UNSTAKE_LOCKUP_DAYS * ONE_DAY {
                return Err(VaultError::InvalidVaultConfig);
            }
        }
        if let Some(management_fee) = params.management_fee {
            if management_fee > MAX_MANAGEMENT_FEE {
                return Err(VaultError::InvalidVaultConfig);
            }
        }
        if let Some(unstake_lockup_period) = params.unstake_lockup_period {
            self.unstake_lockup_period = unstake_lockup_period;
        }
        if let Some(management_fee) = params.management_fee {
            self.management_fee = management_fee;
        }
        if let Some(min_stake_amount) = params.min_stake_amount {
            self.min_stake_amount = min_stake_amount;
        }
        if let Some(max_total_assets) = params.max_total_assets {
            self.max_total_assets = max_total_assets;
        }
        if let Some(is_paused) = params.is_paused {
            self.is_paused = is_paused;
        }
        if let Some(platform_account) = params.platform_account {
            self.platform_account = platform_account;
        }
        Ok(())
    }

    /// Invariant-preservation law: from a state satisfying the accounting
    /// invariants, every successful ledger transition yields a state that
    /// satisfies them again (failed calls leave the state untouched, so the
    /// invariants hold after every call of the mutating operations).
    pub proof fn lemma_transitions_preserve_invariants(
        self,
        amount: u64,
        shares: u64,
        now: i64,
        params: UpdateVaultConfigParams,
    )
        requires
            self.inv(),
        ensures
            self.spec_apply_rebase() matches Ok(p) ==> p.0.inv(),
            self.spec_stake(amount, now) matches Ok(p) ==> p.0.inv(),
            self.spec_unstake(shares) matches Ok(p) ==> p.0.inv(),
            self.spec_add_rewards(amount, now) matches Ok(v) ==> v.inv(),
            self.spec_apply_management_fee(now) matches Ok(p) ==> p.0.inv(),
            self.spec_update_config(params) matches Ok(v) ==> v.inv(),
    {
    }

    /// `10^k` as a `u128`; callers cap `k` so the power fits.
    pub(crate) fn pow10_u128(k: u32) -> (r: u128)
        requires
            k <= 38,
        ensures
            r == pow10(k as nat),
    {
        let mut i: u32 = 0;
        let mut p: u128 = 1;
        while i < k
            invariant
                i <= k,
                k <= 38,
                p == pow10(i as nat),
            decreases k - i,
        {
            proof {
                lemma_pow10_increases((i + 1) as nat, 38);
                lemma_pow10_38_fits();
            }
            p = p * 10;
            i = i + 1;
        }
        p
    }

    /// The per-share value `total_assets * PRECISION / total_shares` raised
    /// by the cumulative rebase multiplier; the one-to-one value when no
    /// shares exist.  `shares_base` must be small enough for the multiplier
    /// to fit in a `u128`.
    pub fn get_share_value(&self) -> (r: VaultResult<u128>)
        requires
            self.shares_base <= 38,
        ensures
            (match r {
                Ok(v) => self.total_shares == 0 && v == PRECISION || self.total_shares > 0 && v
                    == self.total_assets * PRECISION / (self.total_shares as int) * pow10(
                    self.shares_base as nat,
                ),
                Err(e) => self.total_shares > 0 && e == VaultError::MathOverflow
                    && self.total_assets * PRECISION / (self.total_shares as int) * pow10(
                    self.shares_base as nat,
                ) > u128::MAX,
            }),
    {
        if self.total_shares == 0 {
            return Ok(PRECISION as u128);
        }
        proof {
            lemma_u64_mul_fits_u128(self.total_assets as int, PRECISION as int);
        }
        let share_value = SafeCast::<u128>::safe_cast(&self.total_assets)?.safe_mul(
            PRECISION as u128,
        )?.safe_div(SafeCast::<u128>::safe_cast(&self.total_shares)?)?;
        let rebase_multiplier = Vault::pow10_u128(self.shares_base);
        share_value.safe_mul(rebase_multiplier)
    }

    /// Like `get_share_value`, but reports zero value for an empty pool.
    pub fn get_effective_share_value(&self) -> (r: VaultResult<u128>)
        requires
            self.shares_base <= 38,
        ensures
            (match r {
                Ok(v) => self.total_shares == 0 && v == 0 || self.total_shares > 0 && v
                    == self.total_assets * PRECISION / (self.total_shares as int) * pow10(
                    self.shares_base as nat,
                ),
                Err(e) => self.total_shares > 0 && e == VaultError::MathOverflow
                    && self.total_assets * PRECISION / (self.total_shares as int) * pow10(
                    self.shares_base as nat,
                ) > u128::MAX,
            }),
    {
        if self.total_shares == 0 {
            return Ok(0);
        }
        proof {
            lemma_u64_mul_fits_u128(self.total_assets as int, PRECISION as int);
        }
        let base_value = SafeCast::<u128>::safe_cast(&self.total_assets)?.safe_mul(
            PRECISION as u128,
        )?.safe_div(SafeCast::<u128>::safe_cast(&self.total_shares)?)?;
        let rebase_multiplier = Vault::pow10_u128(self.shares_base);
        base_value.safe_mul(rebase_multiplier)
    }
}

} // verus!
