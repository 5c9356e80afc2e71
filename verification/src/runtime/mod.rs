//! The earlier runtime modules: a token module that keeps balances and a
//! staking pool together, and collateral positions called cups.
pub mod traits;
pub mod token;
pub mod cdp;
