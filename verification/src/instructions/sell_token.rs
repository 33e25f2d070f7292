use vstd::prelude::*;

use crate::error::ErrorCode;
use crate::state::bonding_curve::{curve_after_sell, sell_outcome, BondingCurve, SwapAmount};

verus! {

/// The decision of a sell: price the sale on the curve, then refuse it when
/// the SOL escrow, holding `escrow_lamports`, cannot pay the seller. A
/// refused sale leaves the curve as it was; an accepted one returns the
/// token amount to take from the seller and the lamports to pay out.
pub fn sell_token(curve: &mut BondingCurve, max_token: u64, escrow_lamports: u64) -> (r: Result<
    SwapAmount,
    ErrorCode,
>)
    ensures
        match sell_outcome(old(curve).virtual_token_reserve, old(curve).virtual_sol_reserve, max_token) {
            Err(e) => r == Err::<SwapAmount, ErrorCode>(e) && *final(curve) == *old(curve),
            Ok(s) => if escrow_lamports < s.max_sol {
                r == Err::<SwapAmount, ErrorCode>(ErrorCode::InsufficientFunds) && *final(curve) == *old(curve)
            } else {
                r == Ok::<SwapAmount, ErrorCode>(s) && *final(curve) == curve_after_sell(*old(curve), max_token)
            },
        },
{
    let before = *curve;
    let swap_amount = curve.sell_logic(max_token)?;
    if escrow_lamports < swap_amount.max_sol {
        *curve = before;
        return Err(ErrorCode::InsufficientFunds);
    }
    Ok(swap_amount)
}

} // verus!
