//! What a collateral module needs of a token; the same traits as the
//! current modules use.
pub use crate::node::traits::{Token, MintableToken};
