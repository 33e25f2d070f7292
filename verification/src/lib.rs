//! Verified core of a bonding-curve token launchpad: the constant-product
//! pricing of buys and sells against virtual reserves, the launchpad's
//! global configuration, the raw account-byte readers for that
//! configuration, and the input checks made before a token is created
//! or minted.
pub mod constants;
pub mod error;
pub mod instructions;
pub mod state;
pub mod utils;

pub use error::ErrorCode;
pub use state::bonding_curve::{BondingCurve, SwapAmount};
