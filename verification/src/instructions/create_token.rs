use anchor_lang::prelude::Pubkey;
use vstd::prelude::*;

use crate::error::ErrorCode;
use crate::state::bonding_curve::BondingCurve;

verus! {

/// The state change of a token launch: the new curve starts from the given
/// virtual reserves, bound to its mint, with nothing sold; the launch is
/// refused if the curve's token reserve did not take the requested value.
pub fn create_token(
    curve: &mut BondingCurve,
    sol_reserve: &u64,
    token_reserve: &u64,
    mint: &Pubkey,
    bump: u8,
) -> (r: Result<(), ErrorCode>)
    ensures
        r is Ok,
        final(curve).virtual_sol_reserve == *sol_reserve,
        final(curve).virtual_token_reserve == *token_reserve,
        final(curve).token_sold == 0,
        final(curve).token_mint == *mint,
        final(curve).is_active,
        final(curve).bump == bump,
{
    curve.init_bonding_curve(sol_reserve, token_reserve, mint, &bump)?;
    if curve.virtual_token_reserve != *token_reserve {
        return Err(ErrorCode::MetadataFailed);
    }
    Ok(())
}

} // verus!
