//! Accounting core of a multi-asset basket protocol.
//!
//! Users deposit a fixed set of underlying assets in one atomic operation and
//! receive proportional pool shares; they later redeem shares for a
//! proportional slice of every underlying asset.  This crate holds the
//! verified engine: multi-leg validation, fee skimming, decimal
//! normalization, and vault-weighted share pricing.  The hosting environment
//! (account storage, token transfers, mints and burns) is modelled as plain
//! record values handed in by the caller and as lists of requested transfers
//! handed back out; the caller applies a returned plan atomically or not at
//! all.

pub mod address;
pub mod admin;
pub mod constants;
pub mod deposit;
pub mod error;
pub mod events;
pub mod laws;
pub mod math;
pub mod records;
pub mod state;
pub mod withdraw;
