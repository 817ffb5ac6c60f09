use vstd::prelude::*;

verus! {

/// Every way a ledger operation can fail.  A failing operation never commits
/// a partial state change.
#[derive(Clone, Copy, Debug, PartialEq, Eq, Structural)]
pub enum VaultError {
    /// A balance is too small for the requested movement.
    InsufficientFunds,
    /// A zero or otherwise unusable amount was supplied.
    InvalidAmount,
    /// The unstake lockup period has not finished.
    UnstakeLockupNotFinished,
    /// No unstake request is pending.
    NoUnstakeRequest,
    /// An unstake request is already pending.
    UnstakeRequestAlreadyExists,
    /// A configuration value is outside its allowed bounds.
    InvalidVaultConfig,
    /// The caller is not authorized for this operation.
    Unauthorized,
    /// The vault is paused.
    VaultPaused,
    /// A share conversion was requested in a state where none is defined.
    InvalidSharesCalculation,
    /// Checked arithmetic overflowed or underflowed.
    MathOverflow,
    /// A divisor was zero.
    DivisionByZero,
    /// A token mint does not match the vault's asset type.
    InvalidTokenMint,
    /// A token account does not match the vault's records.
    InvalidTokenAccount,
    /// The stake would push the pool past its configured capacity.
    VaultIsFull,
    /// The stake is below the configured minimum.
    MinimumStakeAmountNotMet,
    /// No active shares exist to provide a price reference.
    NoActiveShares,
    /// The post-stake cooldown has not elapsed.
    StakeCooldownNotMet,
    /// An accounting invariant would be violated; the operation is aborted.
    InvariantViolation,
    /// Staking is impossible while every share is pending unstake.
    CannotStakeWhenAllSharesPending,
    /// The custodial balance cannot cover the promised payout.
    InsufficientLiquidity,
    /// The reward source is not authorized.
    UnauthorizedRewardSource,
}

pub type VaultResult<T> = Result<T, VaultError>;

} // verus!
