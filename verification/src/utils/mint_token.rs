use vstd::prelude::*;

use crate::error::ErrorCode;

verus! {

/// Checks the amount of a mint before it is made: minting nothing is refused.
pub fn validate_mint_amount(mint_amount: u64) -> (r: Result<(), ErrorCode>)
    ensures
        r is Ok <==> mint_amount > 0,
        r is Err ==> r->Err_0 == ErrorCode::InvalidTokenAmount,
{
    if mint_amount > 0 {
        Ok(())
    } else {
        Err(ErrorCode::InvalidTokenAmount)
    }
}

} // verus!
