use vstd::prelude::*;

verus! {

/// Size in bytes of the discriminator that precedes every account's fields.
pub const ANCHOR_DISCRIMINATOR: usize = 8;

/// Seed of the program-derived addresses of a curve and of its SOL escrow.
pub const BONDING_SEED: &'static str = "BONDING_CURVE";

/// Number of decimals of every mint the launchpad creates.
pub const TOKEN_DECIMALS: u8 = 6;

/// Amount of the smallest token unit minted into a new curve's escrow.
pub const INITIAL_MINT_AMOUNT: u64 = 1_000_000_000_000_000;

} // verus!
