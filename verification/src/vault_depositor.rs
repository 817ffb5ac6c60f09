use vstd::prelude::*;

use crate::constants::MIN_STAKE_DURATION;
use crate::error::{VaultError, VaultResult};
use crate::math::{lemma_div_le_dividend, SafeCast, SafeMath};
use crate::unstake_request::UnstakeRequest;
use crate::vault::AccountId;

verus! {

/// The per-depositor record of one vault: the active share balance (never
/// including shares frozen in a pending request), running counters, the
/// embedded unstake request, and rebase-sync bookkeeping.
#[derive(Clone, Copy, Debug)]
pub struct VaultDepositor {
    /// The vault this depositor belongs to.
    pub vault: AccountId,
    /// The depositor's authority.
    pub authority: AccountId,
    /// The depositor's active shares.
    pub shares: u64,
    /// The depositor's rewards debt (legacy accumulator model).
    pub rewards_debt: u128,
    /// Last time rewards were claimed.
    pub last_rewards_claim: i64,
    /// The embedded unstake request; empty when none is outstanding.
    pub unstake_request: UnstakeRequest,
    /// Total amount ever staked.
    pub total_staked: u64,
    /// Total amount ever unstaked.
    pub total_unstaked: u64,
    /// Total rewards ever claimed.
    pub total_rewards_claimed: u64,
    /// When the depositor was created.
    pub created_at: i64,
    /// Last vault rebase version this record has synced with.
    pub last_rebase_version: u32,
    /// Last time the depositor staked (cooldown reference).
    pub last_stake_time: i64,
}

impl VaultDepositor {
    /// Well-formedness: timestamps are non-negative, as the clock
    /// collaborator guarantees.
    pub open spec fn wf(self) -> bool {
        &&& 0 <= self.created_at
        &&& 0 <= self.last_rewards_claim
        &&& 0 <= self.last_stake_time
        &&& 0 <= self.unstake_request.request_time
    }

    /// The initial state of a depositor record.
    pub open spec fn spec_initialize(vault: AccountId, authority: AccountId, now: i64) -> VaultDepositor {
        VaultDepositor {
            vault,
            authority,
            shares: 0,
            rewards_debt: 0,
            last_rewards_claim: now,
            unstake_request: UnstakeRequest::spec_empty(),
            total_staked: 0,
            total_unstaked: 0,
            total_rewards_claimed: 0,
            created_at: now,
            last_rebase_version: 0,
            last_stake_time: 0,
        }
    }

    /// The stake transition: the active balance grows and the cooldown clock
    /// restarts.
    pub open spec fn spec_stake(self, shares: u64, now: i64) -> VaultResult<VaultDepositor> {
        if self.shares + shares > u64::MAX {
            Err(VaultError::MathOverflow)
        } else {
            Ok(
                VaultDepositor {
                    shares: (self.shares + shares) as u64,
                    last_stake_time: now,
                    ..self
                },
            )
        }
    }

    /// The direct unstake transition: the balance must cover the shares and
    /// the post-stake cooldown must have elapsed.
    pub open spec fn spec_unstake(self, shares: u64, now: i64) -> VaultResult<VaultDepositor> {
        if shares > self.shares {
            Err(VaultError::InsufficientFunds)
        } else if now - self.last_stake_time < MIN_STAKE_DURATION {
            Err(VaultError::StakeCooldownNotMet)
        } else {
            Ok(VaultDepositor { shares: (self.shares - shares) as u64, ..self })
        }
    }

    /// A share count divided by a rebase divisor, with floor protection: a
    /// strictly positive balance never rescales down to zero.
    pub open spec fn spec_rescaled(shares: u64, divisor: u128) -> u64 {
        let s = shares as int / divisor as int;
        if shares > 0 && s == 0 {
            1u64
        } else {
            s as u64
        }
    }

    /// The rebase-sync transition: a trivial divisor changes nothing;
    /// otherwise the active balance and any pending request shares are
    /// rescaled with floor protection and the version is recorded.
    pub open spec fn spec_apply_rebase(self, rebase_divisor: u128, new_rebase_version: u32) -> VaultDepositor {
        if rebase_divisor <= 1 {
            self
        } else {
            let req = if self.unstake_request.shares > 0 {
                UnstakeRequest {
                    shares: Self::spec_rescaled(self.unstake_request.shares, rebase_divisor),
                    ..self.unstake_request
                }
            } else {
                self.unstake_request
            };
            VaultDepositor {
                shares: Self::spec_rescaled(self.shares, rebase_divisor),
                unstake_request: req,
                last_rebase_version: new_rebase_version,
                ..self
            }
        }
    }

    /// Set up a fresh depositor record.
    pub fn initialize(&mut self, vault: AccountId, authority: AccountId, now: i64) -> (r: VaultResult<()>)
        requires
            0 <= now,
        ensures
            r == Ok::<(), VaultError>(()),
            *final(self) == Self::spec_initialize(vault, authority, now),
            final(self).wf(),
    {
        *self = VaultDepositor {
            vault,
            authority,
            shares: 0,
            rewards_debt: 0,
            last_rewards_claim: now,
            unstake_request: UnstakeRequest::empty(),
            total_staked: 0,
            total_unstaked: 0,
            total_rewards_claimed: 0,
            created_at: now,
            last_rebase_version: 0,
            last_stake_time: 0,
        };
        Ok(())
    }

    /// Credit freshly minted shares and restart the cooldown clock.  The
    /// accumulator argument is kept for callers of the legacy model and is
    /// ignored: rewards compound into share value.
    pub fn stake(&mut self, shares: u64, _rewards_per_share: u128, now: i64) -> (r: VaultResult<()>)
        requires
            old(self).wf(),
            0 <= now,
        ensures
            final(self).wf(),
            (match old(self).spec_stake(shares, now) {
                Ok(d) => r == Ok::<(), VaultError>(()) && *final(self) == d,
                Err(e) => r == Err::<(), VaultError>(e) && *final(self) == *old(self),
            }),
    {
        let new_shares = self.shares.safe_add(shares)?;
        self.shares = new_shares;
        self.last_stake_time = now;
        Ok(())
    }

    /// Release shares from the active balance, enforcing the post-stake
    /// cooldown (a sandwich-attack guard).  The accumulator argument is kept
    /// for callers of the legacy model and is ignored.
    pub fn unstake(&mut self, shares: u64, _rewards_per_share: u128, now: i64) -> (r: VaultResult<()>)
        requires
            old(self).wf(),
            0 <= now,
        ensures
            final(self).wf(),
            (match old(self).spec_unstake(shares, now) {
                Ok(d) => r == Ok::<(), VaultError>(()) && *final(self) == d,
                Err(e) => r == Err::<(), VaultError>(e) && *final(self) == *old(self),
            }),
    {
        if shares > self.shares {
            return Err(VaultError::InsufficientFunds);
        }
        if now - self.last_stake_time < MIN_STAKE_DURATION {
            return Err(VaultError::StakeCooldownNotMet);
        }
        let new_shares = self.shares.safe_sub(shares)?;
        self.shares = new_shares;
        Ok(())
    }

    /// In the compounding model no separate rewards accrue: gains appear as
    /// share-value appreciation, so the pending amount is always zero.
    pub fn calculate_pending_rewards(&self, _rewards_per_share: u128) -> (r: VaultResult<u64>)
        ensures
            r == Ok::<u64, VaultError>(0u64),
    {
        Ok(0)
    }

    /// Whether the pending request (if any) has passed its lockup.
    pub open spec fn spec_can_unstake(self, current_time: i64, lockup_period: i64) -> bool {
        self.unstake_request.spec_can_execute(current_time, lockup_period)
    }

    pub fn can_unstake(&self, current_time: i64, lockup_period: i64) -> (r: bool)
        requires
            0 <= current_time,
            0 <= self.unstake_request.request_time,
        ensures
            r == self.spec_can_unstake(current_time, lockup_period),
    {
        if !self.unstake_request.is_pending() {
            return false;
        }
        self.unstake_request.can_execute(current_time, lockup_period)
    }

    /// Rescale this record's shares after a vault rebase, with floor
    /// protection for both the active balance and any pending request.
    pub fn apply_rebase(&mut self, rebase_divisor: u128, new_rebase_version: u32) -> (r: VaultResult<()>)
        ensures
            r == Ok::<(), VaultError>(()),
            *final(self) == old(self).spec_apply_rebase(rebase_divisor, new_rebase_version),
    {
        if rebase_divisor <= 1 {
            return Ok(());
        }
        let original_shares = self.shares;
        proof {
            lemma_div_le_dividend(original_shares as int, rebase_divisor as int);
        }
        let scaled: u64 = (SafeCast::<u128>::safe_cast(&original_shares)?.safe_div(
            rebase_divisor,
        )?).safe_cast()?;
        self.shares = scaled;
        if original_shares > 0 && self.shares == 0 {
            self.shares = 1;
        }
        if self.unstake_request.is_pending() {
            let original_request_shares = self.unstake_request.shares;
            proof {
                lemma_div_le_dividend(original_request_shares as int, rebase_divisor as int);
            }
            let scaled_request: u64 = (SafeCast::<u128>::safe_cast(&original_request_shares)?
                .safe_div(rebase_divisor)?).safe_cast()?;
            self.unstake_request.shares = scaled_request;
            if original_request_shares > 0 && self.unstake_request.shares == 0 {
                self.unstake_request.shares = 1;
            }
        }
        self.last_rebase_version = new_rebase_version;
        Ok(())
    }

    /// Whether this record is stale with respect to the vault's rebases.
    pub fn needs_rebase_sync(&self, vault_rebase_version: u32) -> (r: bool)
        ensures
            r == (self.last_rebase_version < vault_rebase_version),
    {
        self.last_rebase_version < vault_rebase_version
    }
}

} // verus!
