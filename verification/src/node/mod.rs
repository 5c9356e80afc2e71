//! The current runtime modules.
pub mod traits;
pub mod bdt;
pub mod cdp;
pub mod pool;
