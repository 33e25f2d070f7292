//! Properties that every trade on a bonding curve keeps.
use vstd::arithmetic::div_mod::*;
use vstd::prelude::*;

use crate::state::bonding_curve::{
    buy_outcome, curve_after_buy, curve_after_sell, lemma_reserve_after_bounded, product,
    sell_outcome, sol_reserve_after_sell, token_reserve_after_buy, BondingCurve, SwapAmount,
};

verus! {

/// A successful buy moves exactly what it reports: the buyer's lamports all
/// go into the SOL reserve, the tokens handed out all come out of the token
/// reserve, at least one token changes hands, and nothing else changes.
pub proof fn law_buy_conserves(c: BondingCurve, max_sol: u64, s: SwapAmount)
    requires
        buy_outcome(c.virtual_token_reserve, c.virtual_sol_reserve, max_sol) == Ok::<SwapAmount, crate::error::ErrorCode>(s),
    ensures
        s.max_sol == max_sol,
        s.token_to_send > 0,
        curve_after_buy(c, max_sol).virtual_sol_reserve == c.virtual_sol_reserve + max_sol,
        curve_after_buy(c, max_sol).virtual_token_reserve + s.token_to_send == c.virtual_token_reserve,
        curve_after_buy(c, max_sol).token_sold == c.token_sold,
        curve_after_buy(c, max_sol).token_mint == c.token_mint,
        curve_after_buy(c, max_sol).is_active == c.is_active,
        curve_after_buy(c, max_sol).bump == c.bump,
{
    lemma_reserve_after_bounded(c.virtual_token_reserve, c.virtual_sol_reserve, max_sol);
}

/// A successful sell moves exactly what it reports: the tokens sold all go
/// into the token reserve, the lamports paid out all come out of the SOL
/// reserve, at least one lamport changes hands, and nothing else changes.
pub proof fn law_sell_conserves(c: BondingCurve, max_token: u64, s: SwapAmount)
    requires
        sell_outcome(c.virtual_token_reserve, c.virtual_sol_reserve, max_token) == Ok::<SwapAmount, crate::error::ErrorCode>(s),
    ensures
        s.token_to_send == max_token,
        s.max_sol > 0,
        curve_after_sell(c, max_token).virtual_token_reserve == c.virtual_token_reserve + max_token,
        curve_after_sell(c, max_token).virtual_sol_reserve + s.max_sol == c.virtual_sol_reserve,
        curve_after_sell(c, max_token).token_sold == c.token_sold,
        curve_after_sell(c, max_token).token_mint == c.token_mint,
        curve_after_sell(c, max_token).is_active == c.is_active,
        curve_after_sell(c, max_token).bump == c.bump,
{
    lemma_reserve_after_bounded(c.virtual_sol_reserve, c.virtual_token_reserve, max_token);
    vstd::arithmetic::mul::lemma_mul_is_commutative(c.virtual_sol_reserve as int, c.virtual_token_reserve as int);
}

/// Rounding after a buy is the only thing that moves the constant product:
/// it never grows, and it shrinks by less than the new SOL reserve.
pub proof fn law_buy_keeps_product(c: BondingCurve, max_sol: u64, s: SwapAmount)
    requires
        buy_outcome(c.virtual_token_reserve, c.virtual_sol_reserve, max_sol) == Ok::<SwapAmount, crate::error::ErrorCode>(s),
    ensures
        product(curve_after_buy(c, max_sol).virtual_token_reserve as int, curve_after_buy(c, max_sol).virtual_sol_reserve as int)
            <= product(c.virtual_token_reserve as int, c.virtual_sol_reserve as int),
        product(c.virtual_token_reserve as int, c.virtual_sol_reserve as int)
            < product(curve_after_buy(c, max_sol).virtual_token_reserve as int, curve_after_buy(c, max_sol).virtual_sol_reserve as int)
                + curve_after_buy(c, max_sol).virtual_sol_reserve,
{
    lemma_reserve_after_bounded(c.virtual_token_reserve, c.virtual_sol_reserve, max_sol);
    let k = product(c.virtual_token_reserve as int, c.virtual_sol_reserve as int);
    let d = c.virtual_sol_reserve + max_sol;
    lemma_fundamental_div_mod(k, d);
    lemma_mod_pos_bound(k, d);
    vstd::arithmetic::mul::lemma_mul_is_commutative(d, k / d);
}

/// Rounding after a sell is the only thing that moves the constant product:
/// it never grows, and it shrinks by less than the new token reserve.
pub proof fn law_sell_keeps_product(c: BondingCurve, max_token: u64, s: SwapAmount)
    requires
        sell_outcome(c.virtual_token_reserve, c.virtual_sol_reserve, max_token) == Ok::<SwapAmount, crate::error::ErrorCode>(s),
    ensures
        product(curve_after_sell(c, max_token).virtual_token_reserve as int, curve_after_sell(c, max_token).virtual_sol_reserve as int)
            <= product(c.virtual_token_reserve as int, c.virtual_sol_reserve as int),
        product(c.virtual_token_reserve as int, c.virtual_sol_reserve as int)
            < product(curve_after_sell(c, max_token).virtual_token_reserve as int, curve_after_sell(c, max_token).virtual_sol_reserve as int)
                + curve_after_sell(c, max_token).virtual_token_reserve,
{
    lemma_reserve_after_bounded(c.virtual_sol_reserve, c.virtual_token_reserve, max_token);
    vstd::arithmetic::mul::lemma_mul_is_commutative(c.virtual_sol_reserve as int, c.virtual_token_reserve as int);
    let k = product(c.virtual_token_reserve as int, c.virtual_sol_reserve as int);
    let d = c.virtual_token_reserve + max_token;
    lemma_fundamental_div_mod(k, d);
    lemma_mod_pos_bound(k, d);
}

/// Paying more lamports never buys fewer tokens: whenever a buy succeeds,
/// a larger buy whose SOL reserve still fits succeeds as well and hands out
/// at least as many tokens.
pub proof fn law_buy_monotone(token_reserve: u64, sol_reserve: u64, small: u64, large: u64, s: SwapAmount)
    requires
        small <= large,
        sol_reserve + large <= u64::MAX,
        buy_outcome(token_reserve, sol_reserve, small) == Ok::<SwapAmount, crate::error::ErrorCode>(s),
    ensures
        buy_outcome(token_reserve, sol_reserve, large) matches Ok(t) && s.token_to_send <= t.token_to_send,
{
    lemma_reserve_after_bounded(token_reserve, sol_reserve, large);
    lemma_div_is_ordered_by_denominator(
        product(token_reserve as int, sol_reserve as int),
        sol_reserve + small,
        sol_reserve + large,
    );
    assert(token_reserve_after_buy(token_reserve as int, sol_reserve as int, large as int)
        <= token_reserve_after_buy(token_reserve as int, sol_reserve as int, small as int));
}

/// Selling more tokens never pays out fewer lamports: whenever a sell
/// succeeds, a larger sell whose token reserve still fits succeeds as well
/// and pays out at least as much.
pub proof fn law_sell_monotone(token_reserve: u64, sol_reserve: u64, small: u64, large: u64, s: SwapAmount)
    requires
        small <= large,
        token_reserve + large <= u64::MAX,
        sell_outcome(token_reserve, sol_reserve, small) == Ok::<SwapAmount, crate::error::ErrorCode>(s),
    ensures
        sell_outcome(token_reserve, sol_reserve, large) matches Ok(t) && s.max_sol <= t.max_sol,
{
    lemma_reserve_after_bounded(sol_reserve, token_reserve, large);
    vstd::arithmetic::mul::lemma_mul_is_commutative(sol_reserve as int, token_reserve as int);
    lemma_div_is_ordered_by_denominator(
        product(token_reserve as int, sol_reserve as int),
        token_reserve + small,
        token_reserve + large,
    );
    assert(sol_reserve_after_sell(token_reserve as int, sol_reserve as int, large as int)
        <= sol_reserve_after_sell(token_reserve as int, sol_reserve as int, small as int));
}

/// A buy raises the price of the token in lamports (the ratio of the SOL
/// reserve to the token reserve), and a sell lowers it.
pub proof fn law_trades_move_price(c: BondingCurve, amount: u64)
    ensures
        buy_outcome(c.virtual_token_reserve, c.virtual_sol_reserve, amount) is Ok ==>
            curve_after_buy(c, amount).virtual_sol_reserve * c.virtual_token_reserve
                > c.virtual_sol_reserve * curve_after_buy(c, amount).virtual_token_reserve,
        sell_outcome(c.virtual_token_reserve, c.virtual_sol_reserve, amount) is Ok ==>
            curve_after_sell(c, amount).virtual_sol_reserve * c.virtual_token_reserve
                < c.virtual_sol_reserve * curve_after_sell(c, amount).virtual_token_reserve,
{
    let x = c.virtual_token_reserve as int;
    let y = c.virtual_sol_reserve as int;
    if buy_outcome(c.virtual_token_reserve, c.virtual_sol_reserve, amount) is Ok {
        law_buy_conserves(c, amount, buy_outcome(c.virtual_token_reserve, c.virtual_sol_reserve, amount)->Ok_0);
        let y2 = curve_after_buy(c, amount).virtual_sol_reserve as int;
        let x2 = curve_after_buy(c, amount).virtual_token_reserve as int;
        assert(y2 * x > y * x2) by (nonlinear_arith)
            requires
                y2 > y >= 0,
                x > x2 >= 0,
        ;
    }
    if sell_outcome(c.virtual_token_reserve, c.virtual_sol_reserve, amount) is Ok {
        law_sell_conserves(c, amount, sell_outcome(c.virtual_token_reserve, c.virtual_sol_reserve, amount)->Ok_0);
        let y2 = curve_after_sell(c, amount).virtual_sol_reserve as int;
        let x2 = curve_after_sell(c, amount).virtual_token_reserve as int;
        assert(y2 * x < y * x2) by (nonlinear_arith)
            requires
                y > y2 >= 0,
                x2 > x >= 0,
        ;
    }
}

/// When the reserve left after paying in is strictly below the reserve
/// before: this is so exactly when that reserve is positive.
proof fn lemma_reserve_after_below(reserve: int, other: int, paid_in: int)
    requires
        0 <= reserve,
        0 <= other,
        0 < paid_in,
    ensures
        reserve * other / (other + paid_in) < reserve <==> reserve > 0,
        reserve * other / (other + paid_in) >= 0,
{
    let d = other + paid_in;
    let q = reserve * other / d;
    lemma_fundamental_div_mod(reserve * other, d);
    lemma_mod_pos_bound(reserve * other, d);
    assert(reserve * other >= 0) by (nonlinear_arith)
        requires
            0 <= reserve,
            0 <= other,
    ;
    lemma_div_pos_is_pos(reserve * other, d);
    if reserve > 0 {
        assert(reserve * other < d * reserve) by (nonlinear_arith)
            requires
                reserve > 0,
                d == other + paid_in,
                paid_in > 0,
        ;
        assert(q < reserve) by (nonlinear_arith)
            requires
                d * q <= reserve * other,
                reserve * other < d * reserve,
                d > 0,
        {
        }
    } else {
        assert(reserve * other == 0);
    }
}

/// A buy goes through exactly when something is paid, the curve holds tokens,
/// and the new SOL reserve fits in a `u64`; the buyer then gets the token
/// reserve minus the product of the reserves divided by the new SOL reserve
/// (rounded down), and the lamports paid are reported back.
pub proof fn law_buy_liveness(token_reserve: u64, sol_reserve: u64, max_sol: u64)
    ensures
        buy_outcome(token_reserve, sol_reserve, max_sol) is Ok <==> (max_sol > 0 && token_reserve > 0
            && sol_reserve + max_sol <= u64::MAX),
        buy_outcome(token_reserve, sol_reserve, max_sol) is Ok ==> buy_outcome(token_reserve, sol_reserve, max_sol)
            == Ok::<SwapAmount, crate::error::ErrorCode>(SwapAmount {
            token_to_send: (token_reserve - (token_reserve * sol_reserve) / (sol_reserve + max_sol)) as u64,
            max_sol: max_sol,
        }),
{
    if max_sol > 0 {
        lemma_reserve_after_below(token_reserve as int, sol_reserve as int, max_sol as int);
    }
}

/// A sell goes through exactly when something is sold, the curve holds SOL,
/// and the new token reserve fits in a `u64`; the seller then gets the SOL
/// reserve minus the product of the reserves divided by the new token reserve
/// (rounded down), and the tokens sold are reported back.
pub proof fn law_sell_liveness(token_reserve: u64, sol_reserve: u64, max_token: u64)
    ensures
        sell_outcome(token_reserve, sol_reserve, max_token) is Ok <==> (max_token > 0 && sol_reserve > 0
            && token_reserve + max_token <= u64::MAX),
        sell_outcome(token_reserve, sol_reserve, max_token) is Ok ==> sell_outcome(token_reserve, sol_reserve, max_token)
            == Ok::<SwapAmount, crate::error::ErrorCode>(SwapAmount {
            token_to_send: max_token,
            max_sol: (sol_reserve - (token_reserve * sol_reserve) / (token_reserve + max_token)) as u64,
        }),
{
    if max_token > 0 {
        lemma_reserve_after_below(sol_reserve as int, token_reserve as int, max_token as int);
        vstd::arithmetic::mul::lemma_mul_is_commutative(sol_reserve as int, token_reserve as int);
    }
}

} // verus!
