//! Bandot: a collateralised stable-coin system.
//!
//! The library holds the state of each runtime module as plain values and
//! exposes every dispatchable call as a method with an exact contract.
//! `node` holds the current modules (the BDT ledger, the collateral
//! positions and the staking pool); `runtime` holds the earlier token
//! module and the earlier collateral positions ("cups").
use vstd::prelude::*;

pub mod error;
pub mod origin;
pub mod sum;
pub mod storage;
pub mod ledger;
pub mod node;
pub mod runtime;

verus! {

/// Identifies an account.
pub type AccountId = u64;

/// An amount of a token.
pub type Balance = u64;

/// A block number.
pub type BlockNumber = u64;

} // verus!
