use anchor_lang::prelude::Pubkey;
use vstd::arithmetic::div_mod::*;
use vstd::arithmetic::mul::*;
use vstd::prelude::*;

use crate::error::ErrorCode;

verus! {

/// An account address, carried through the curve's state and never inspected.
#[verifier::external_type_specification]
#[verifier::external_body]
pub struct ExPubkey(Pubkey);

/// The state of one token's bonding curve: its virtual reserves of SOL and
/// of the token, priced by the constant product of the two.
#[derive(Clone, Copy)]
pub struct BondingCurve {
    pub virtual_sol_reserve: u64,
    pub virtual_token_reserve: u64,
    pub token_sold: u64,
    pub token_mint: Pubkey,
    pub is_active: bool,
    pub bump: u8,
}

/// What one trade moves: the tokens that change hands and the lamports that
/// change hands (paid in on a buy, paid out on a sell).
#[derive(Clone, Copy, Debug, PartialEq, Eq, Structural)]
pub struct SwapAmount {
    pub token_to_send: u64,
    pub max_sol: u64,
}

/// The constant product of the two virtual reserves.
pub open spec fn product(token_reserve: int, sol_reserve: int) -> int {
    token_reserve * sol_reserve
}

/// Token reserve left after `max_sol` lamports are paid in: the product
/// divided by the new SOL reserve, rounded down.
pub open spec fn token_reserve_after_buy(token_reserve: int, sol_reserve: int, max_sol: int) -> int {
    product(token_reserve, sol_reserve) / (sol_reserve + max_sol)
}

/// SOL reserve left after `max_token` tokens are paid in: the product
/// divided by the new token reserve, rounded down.
pub open spec fn sol_reserve_after_sell(token_reserve: int, sol_reserve: int, max_token: int) -> int {
    product(token_reserve, sol_reserve) / (token_reserve + max_token)
}

/// The outcome of buying with `max_sol` lamports against the given reserves.
pub open spec fn buy_outcome(token_reserve: u64, sol_reserve: u64, max_sol: u64) -> Result<SwapAmount, ErrorCode> {
    if max_sol == 0 {
        Err(ErrorCode::InvalidSolAmount)
    } else if token_reserve - token_reserve_after_buy(token_reserve as int, sol_reserve as int, max_sol as int) <= 0 {
        Err(ErrorCode::InvalidTokenAmount)
    } else if sol_reserve + max_sol > u64::MAX {
        Err(ErrorCode::OverflowDetected)
    } else {
        Ok(SwapAmount {
            token_to_send: (token_reserve - token_reserve_after_buy(token_reserve as int, sol_reserve as int, max_sol as int)) as u64,
            max_sol: max_sol,
        })
    }
}

/// The outcome of selling `max_token` tokens against the given reserves.
pub open spec fn sell_outcome(token_reserve: u64, sol_reserve: u64, max_token: u64) -> Result<SwapAmount, ErrorCode> {
    if max_token == 0 {
        Err(ErrorCode::InvalidTokenAmount)
    } else if sol_reserve - sol_reserve_after_sell(token_reserve as int, sol_reserve as int, max_token as int) <= 0 {
        Err(ErrorCode::InvalidSolAmount)
    } else if token_reserve + max_token > u64::MAX {
        Err(ErrorCode::OverflowDetected)
    } else {
        Ok(SwapAmount {
            token_to_send: max_token,
            max_sol: (sol_reserve - sol_reserve_after_sell(token_reserve as int, sol_reserve as int, max_token as int)) as u64,
        })
    }
}

/// The curve after a successful buy with `max_sol` lamports.
pub open spec fn curve_after_buy(c: BondingCurve, max_sol: u64) -> BondingCurve {
    BondingCurve {
        virtual_token_reserve: token_reserve_after_buy(
            c.virtual_token_reserve as int,
            c.virtual_sol_reserve as int,
            max_sol as int,
        ) as u64,
        virtual_sol_reserve: (c.virtual_sol_reserve + max_sol) as u64,
        ..c
    }
}

/// The curve after a successful sell of `max_token` tokens.
pub open spec fn curve_after_sell(c: BondingCurve, max_token: u64) -> BondingCurve {
    BondingCurve {
        virtual_token_reserve: (c.virtual_token_reserve + max_token) as u64,
        virtual_sol_reserve: sol_reserve_after_sell(
            c.virtual_token_reserve as int,
            c.virtual_sol_reserve as int,
            max_token as int,
        ) as u64,
        ..c
    }
}

/// The reserve left after paying in never exceeds the reserve before,
/// and the product cannot overflow 128 bits.
pub proof fn lemma_reserve_after_bounded(reserve: u64, other: u64, paid_in: u64)
    requires
        other + paid_in > 0,
    ensures
        0 <= product(reserve as int, other as int) <= u128::MAX,
        0 <= product(reserve as int, other as int) / (other + paid_in) <= reserve,
{
    assert(0 <= reserve * other <= u128::MAX) by (nonlinear_arith)
        requires
            reserve <= u64::MAX,
            other <= u64::MAX,
    ;
    let d = (other + paid_in) as int;
    assert(reserve * other <= reserve * d) by (nonlinear_arith)
        requires
            d >= other,
            reserve >= 0,
    ;
    lemma_div_is_ordered(reserve * other, reserve * d, d);
    lemma_div_by_multiple(reserve as int, d);
    lemma_div_pos_is_pos(reserve * other, d);
}

impl BondingCurve {
    /// Starts a curve with the given virtual reserves, nothing sold, active.
    pub fn init_bonding_curve(
        &mut self,
        virtual_sol_reserve: &u64,
        virtual_token_reserve: &u64,
        token_mint: &Pubkey,
        bump: &u8,
    ) -> (r: Result<(), ErrorCode>)
        ensures
            r is Ok,
            final(self).virtual_sol_reserve == *virtual_sol_reserve,
            final(self).virtual_token_reserve == *virtual_token_reserve,
            final(self).token_sold == 0,
            final(self).token_mint == *token_mint,
            final(self).is_active,
            final(self).bump == *bump,
    {
        self.virtual_sol_reserve = *virtual_sol_reserve;
        self.virtual_token_reserve = *virtual_token_reserve;
        self.token_sold = 0;
        self.token_mint = *token_mint;
        self.is_active = true;
        self.bump = *bump;
        Ok(())
    }

    /// Replaces the virtual token reserve.
    pub fn update_token_reserve(&mut self, new_token_reserve: u64) -> (r: Result<(), ErrorCode>)
        ensures
            r is Ok,
            *final(self) == (BondingCurve { virtual_token_reserve: new_token_reserve, ..*old(self) }),
    {
        self.virtual_token_reserve = new_token_reserve;
        Ok(())
    }

    /// Replaces the virtual SOL reserve.
    pub fn update_sol_reserve(&mut self, new_sol_reserve: u64) -> (r: Result<(), ErrorCode>)
        ensures
            r is Ok,
            *final(self) == (BondingCurve { virtual_sol_reserve: new_sol_reserve, ..*old(self) }),
    {
        self.virtual_sol_reserve = new_sol_reserve;
        Ok(())
    }

    /// Buys tokens with `max_sol` lamports: the SOL reserve grows by
    /// `max_sol`, the token reserve shrinks to the product over the new SOL
    /// reserve (rounded down), and the difference is what the buyer gets.
    pub fn buy_logic(&mut self, max_sol: u64) -> (r: Result<SwapAmount, ErrorCode>)
        ensures
            r == buy_outcome(old(self).virtual_token_reserve, old(self).virtual_sol_reserve, max_sol),
            r is Ok ==> *final(self) == curve_after_buy(*old(self), max_sol),
            r is Err ==> *final(self) == *old(self),
    {
        if max_sol == 0 {
            return Err(ErrorCode::InvalidSolAmount);
        }
        proof {
            lemma_reserve_after_bounded(self.virtual_token_reserve, self.virtual_sol_reserve, max_sol);
        }
        let virtual_token_reserve = self.virtual_token_reserve as u128;
        let virtual_sol_reserve = self.virtual_sol_reserve as u128;
        let max_sol_wide = max_sol as u128;

        let k = match virtual_token_reserve.checked_mul(virtual_sol_reserve) {
            Some(k) => k,
            None => return Err(ErrorCode::OverflowDetected),
        };
        let new_sol_reserve = match virtual_sol_reserve.checked_add(max_sol_wide) {
            Some(v) => v,
            None => return Err(ErrorCode::OverflowDetected),
        };
        let token_reserve_after_buy = match k.checked_div(new_sol_reserve) {
            Some(v) => v,
            None => return Err(ErrorCode::OverflowDetected),
        };
        let token_to_send = match virtual_token_reserve.checked_sub(token_reserve_after_buy) {
            Some(v) => v,
            None => return Err(ErrorCode::UnderflowDetected),
        };
        if token_to_send == 0 {
            return Err(ErrorCode::InvalidTokenAmount);
        }
        // The new reserve is stored as a u64: a reserve past u64::MAX is refused.
        let new_sol_reserve_u64 = match self.virtual_sol_reserve.checked_add(max_sol) {
            Some(v) => v,
            None => return Err(ErrorCode::OverflowDetected),
        };
        self.update_token_reserve(token_reserve_after_buy as u64)?;
        self.update_sol_reserve(new_sol_reserve_u64)?;
        Ok(SwapAmount { token_to_send: token_to_send as u64, max_sol: max_sol })
    }

    /// Sells `max_token` tokens: the token reserve grows by `max_token`, the
    /// SOL reserve shrinks to the product over the new token reserve
    /// (rounded down), and the difference is what the seller gets.
    pub fn sell_logic(&mut self, max_token: u64) -> (r: Result<SwapAmount, ErrorCode>)
        ensures
            r == sell_outcome(old(self).virtual_token_reserve, old(self).virtual_sol_reserve, max_token),
            r is Ok ==> *final(self) == curve_after_sell(*old(self), max_token),
            r is Err ==> *final(self) == *old(self),
    {
        if max_token == 0 {
            return Err(ErrorCode::InvalidTokenAmount);
        }
        proof {
            lemma_reserve_after_bounded(self.virtual_sol_reserve, self.virtual_token_reserve, max_token);
            lemma_mul_is_commutative(self.virtual_sol_reserve as int, self.virtual_token_reserve as int);
        }
        let virtual_token_reserve = self.virtual_token_reserve as u128;
        let virtual_sol_reserve = self.virtual_sol_reserve as u128;
        let max_token_wide = max_token as u128;

        let k = match virtual_token_reserve.checked_mul(virtual_sol_reserve) {
            Some(k) => k,
            None => return Err(ErrorCode::OverflowDetected),
        };
        let new_token_reserve = match virtual_token_reserve.checked_add(max_token_wide) {
            Some(v) => v,
            None => return Err(ErrorCode::OverflowDetected),
        };
        let sol_reserve_after_sell = match k.checked_div(new_token_reserve) {
            Some(v) => v,
            None => return Err(ErrorCode::OverflowDetected),
        };
        let sol_to_send = match virtual_sol_reserve.checked_sub(sol_reserve_after_sell) {
            Some(v) => v,
            None => return Err(ErrorCode::UnderflowDetected),
        };
        if sol_to_send == 0 {
            return Err(ErrorCode::InvalidSolAmount);
        }
        // The new reserve is stored as a u64: a reserve past u64::MAX is refused.
        let new_token_reserve_u64 = match self.virtual_token_reserve.checked_add(max_token) {
            Some(v) => v,
            None => return Err(ErrorCode::OverflowDetected),
        };
        self.update_token_reserve(new_token_reserve_u64)?;
        self.update_sol_reserve(sol_reserve_after_sell as u64)?;
        Ok(SwapAmount { token_to_send: max_token, max_sol: sol_to_send as u64 })
    }

    /// The virtual SOL reserve.
    pub fn load_virtual_sol_reserve(&self) -> (r: Result<u64, ErrorCode>)
        ensures
            r == Ok::<u64, ErrorCode>(self.virtual_sol_reserve),
    {
        Ok(self.virtual_sol_reserve)
    }

    /// The virtual token reserve.
    pub fn load_virtual_token_reserve(&self) -> (r: Result<u64, ErrorCode>)
        ensures
            r == Ok::<u64, ErrorCode>(self.virtual_token_reserve),
    {
        Ok(self.virtual_token_reserve)
    }
}

} // verus!
