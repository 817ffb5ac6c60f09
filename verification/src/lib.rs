//! A pooled-value accounting engine: depositors contribute a fungible asset
//! into a shared pool and receive proportional shares.  The pool grows
//! through injected rewards and a time-prorated management fee, and shrinks
//! as depositors redeem shares through a lockup-delayed, two-phase unstake
//! protocol.  All arithmetic is checked; every mutating operation either
//! applies completely and re-establishes the accounting invariants, or
//! leaves the state untouched and reports an error.
//!
//! Moving the underlying asset, authorization, address derivation and the
//! clock are external collaborators: callers perform them and hand the
//! ledger plain values (amounts, balances, timestamps, identifiers).

pub mod constants;
pub mod error;
pub mod math;
pub mod vault_math;
pub mod unstake_request;
pub mod vault;
pub mod vault_depositor;
pub mod lifecycle;
