use anchor_lang::prelude::Pubkey;
use pump::{BondingCurve, ErrorCode, SwapAmount};

const LAMPORTS_PER_SOL: u64 = 1_000_000_000;
const INITIAL_SOL: u64 = 30 * LAMPORTS_PER_SOL;
const INITIAL_TOKEN: u64 = 800_000_000 * LAMPORTS_PER_SOL;

fn get_default_curve() -> BondingCurve {
    BondingCurve {
        virtual_sol_reserve: INITIAL_SOL,
        virtual_token_reserve: INITIAL_TOKEN,
        token_sold: 0,
        token_mint: Pubkey::default(),
        is_active: true,
        bump: 0,
    }
}

fn curve_with(token_reserve: u64, sol_reserve: u64) -> BondingCurve {
    BondingCurve {
        virtual_sol_reserve: sol_reserve,
        virtual_token_reserve: token_reserve,
        ..get_default_curve()
    }
}

#[test]
fn test_buy_token_success() {
    let mut bonding_curve = get_default_curve();
    let max_sol = 1 * LAMPORTS_PER_SOL;

    let result = bonding_curve.buy_logic(max_sol);
    assert!(result.is_ok());

    let swap = result.unwrap();
    assert!(swap.token_to_send > 0);
    assert_eq!(swap.max_sol, max_sol);
    assert_eq!(bonding_curve.virtual_sol_reserve, INITIAL_SOL + max_sol);
}

#[test]
fn test_sell_token_success() {
    let mut bonding_curve = get_default_curve();
    let max_token = 10_000_000 * LAMPORTS_PER_SOL;

    let result = bonding_curve.sell_logic(max_token);
    assert!(result.is_ok());

    let swap = result.unwrap();
    assert!(swap.max_sol > 0);
    assert_eq!(swap.token_to_send, max_token);
    assert_eq!(bonding_curve.virtual_token_reserve, INITIAL_TOKEN + max_token);
}

#[test]
fn test_buy_token_zero_sol_should_fail() {
    let mut bonding_curve = get_default_curve();
    let result = bonding_curve.buy_logic(0);
    assert!(result.is_err());
}

#[test]
fn test_sell_token_zero_amount_should_fail() {
    let mut bonding_curve = get_default_curve();
    let result = bonding_curve.sell_logic(0);
    assert!(result.is_err());
}

#[test]
fn test_buy_token_minimum_value() {
    let mut bonding_curve = get_default_curve();
    let result = bonding_curve.buy_logic(1); // 1 lamport
    assert!(result.is_ok());
    let swap = result.unwrap();
    assert!(swap.token_to_send > 0);
}

#[test]
fn test_sell_token_minimum_value() {
    let mut bonding_curve = get_default_curve();
    let result = bonding_curve.sell_logic(1); // 1 token in smallest unit
    assert!(result.is_ok());
    let swap = result.unwrap();
    assert!(swap.max_sol > 0);
}

#[test]
fn test_buy_causes_overflow_should_fail() {
    let mut bonding_curve = BondingCurve {
        virtual_sol_reserve: u64::MAX,
        virtual_token_reserve: u64::MAX,
        ..get_default_curve()
    };
    let result = bonding_curve.buy_logic(1_000_000_000);

    assert!(result.is_err());
}

#[test]
fn test_sell_causes_underflow_should_fail() {
    let mut bonding_curve = BondingCurve {
        virtual_sol_reserve: 1,
        virtual_token_reserve: 1,
        ..get_default_curve()
    };
    let result = bonding_curve.sell_logic(u64::MAX);
    assert!(result.is_err());
}

#[test]
fn buy_one_sol_exact_amounts() {
    let mut c = get_default_curve();
    let swap = c.buy_logic(LAMPORTS_PER_SOL).unwrap();
    assert_eq!(swap, SwapAmount { token_to_send: 25_806_451_612_903_226, max_sol: LAMPORTS_PER_SOL });
    assert_eq!(c.virtual_token_reserve, 774_193_548_387_096_774);
    assert_eq!(c.virtual_sol_reserve, 31_000_000_000);
    assert_eq!(c.token_sold, 0);
    assert!(c.is_active);
}

#[test]
fn buy_one_lamport_exact_amount() {
    let mut c = get_default_curve();
    let swap = c.buy_logic(1).unwrap();
    assert_eq!(swap.token_to_send, 26_666_667);
    assert_eq!(c.virtual_token_reserve, INITIAL_TOKEN - 26_666_667);
    assert_eq!(c.virtual_sol_reserve, INITIAL_SOL + 1);
}

#[test]
fn sell_exact_amounts() {
    let mut c = get_default_curve();
    let swap = c.sell_logic(10_000_000 * LAMPORTS_PER_SOL).unwrap();
    assert_eq!(swap, SwapAmount { token_to_send: 10_000_000 * LAMPORTS_PER_SOL, max_sol: 370_370_371 });
    assert_eq!(c.virtual_sol_reserve, 29_629_629_629);
    let mut d = get_default_curve();
    assert_eq!(d.sell_logic(1).unwrap().max_sol, 1);
}

#[test]
fn buy_errors_name_their_cause_and_keep_state() {
    let mut c = get_default_curve();
    assert_eq!(c.buy_logic(0), Err(ErrorCode::InvalidSolAmount));
    let mut o = curve_with(u64::MAX, u64::MAX);
    assert_eq!(o.buy_logic(1_000_000_000), Err(ErrorCode::OverflowDetected));
    assert_eq!(o.virtual_sol_reserve, u64::MAX);
    assert_eq!(o.virtual_token_reserve, u64::MAX);
    let mut empty = curve_with(0, INITIAL_SOL);
    assert_eq!(empty.buy_logic(5), Err(ErrorCode::InvalidTokenAmount));
    assert_eq!(empty.virtual_sol_reserve, INITIAL_SOL);
}

#[test]
fn sell_errors_name_their_cause_and_keep_state() {
    let mut c = get_default_curve();
    assert_eq!(c.sell_logic(0), Err(ErrorCode::InvalidTokenAmount));
    let mut o = curve_with(1, 1);
    assert_eq!(o.sell_logic(u64::MAX), Err(ErrorCode::OverflowDetected));
    assert_eq!(o.virtual_token_reserve, 1);
    let mut dry = curve_with(INITIAL_TOKEN, 0);
    assert_eq!(dry.sell_logic(5), Err(ErrorCode::InvalidSolAmount));
    assert_eq!(dry.virtual_token_reserve, INITIAL_TOKEN);
}

#[test]
fn buy_that_fills_sol_reserve_exactly_succeeds() {
    let mut c = curve_with(1_000, u64::MAX - 10);
    let swap = c.buy_logic(10).unwrap();
    assert_eq!(c.virtual_sol_reserve, u64::MAX);
    assert_eq!(swap.token_to_send + c.virtual_token_reserve, 1_000);
}

#[test]
fn trades_conserve_and_keep_product_within_rounding() {
    let mut c = get_default_curve();
    let k0 = c.virtual_token_reserve as u128 * c.virtual_sol_reserve as u128;
    let swap = c.buy_logic(7 * LAMPORTS_PER_SOL).unwrap();
    assert_eq!(c.virtual_token_reserve + swap.token_to_send, INITIAL_TOKEN);
    let k1 = c.virtual_token_reserve as u128 * c.virtual_sol_reserve as u128;
    assert!(k1 <= k0);
    assert!(k0 < k1 + c.virtual_sol_reserve as u128);
    let before_sol = c.virtual_sol_reserve;
    let sell = c.sell_logic(swap.token_to_send / 2).unwrap();
    assert_eq!(c.virtual_sol_reserve + sell.max_sol, before_sol);
    let k2 = c.virtual_token_reserve as u128 * c.virtual_sol_reserve as u128;
    assert!(k2 <= k1);
    assert!(k1 < k2 + c.virtual_token_reserve as u128);
}

#[test]
fn larger_trades_get_more() {
    let mut a = get_default_curve();
    let mut b = get_default_curve();
    let small = a.buy_logic(LAMPORTS_PER_SOL).unwrap();
    let large = b.buy_logic(2 * LAMPORTS_PER_SOL).unwrap();
    assert!(small.token_to_send <= large.token_to_send);
    let mut c = get_default_curve();
    let mut d = get_default_curve();
    let s1 = c.sell_logic(1_000).unwrap();
    let s2 = d.sell_logic(1_000_000).unwrap();
    assert!(s1.max_sol <= s2.max_sol);
}

#[test]
fn buy_raises_price_and_sell_lowers_it() {
    let mut c = get_default_curve();
    c.buy_logic(LAMPORTS_PER_SOL).unwrap();
    assert!(c.virtual_sol_reserve as u128 * INITIAL_TOKEN as u128
        > INITIAL_SOL as u128 * c.virtual_token_reserve as u128);
    let mut d = get_default_curve();
    d.sell_logic(LAMPORTS_PER_SOL).unwrap();
    assert!((d.virtual_sol_reserve as u128) * (INITIAL_TOKEN as u128)
        < (INITIAL_SOL as u128) * (d.virtual_token_reserve as u128));
}

#[test]
fn round_trip_rounding_can_favour_the_trader() {
    let mut c = curve_with(10, 10);
    let bought = c.buy_logic(3).unwrap();
    assert_eq!(bought.token_to_send, 3);
    let sold = c.sell_logic(3).unwrap();
    assert_eq!(sold.max_sol, 4);
}

#[test]
fn init_and_updates_and_loads() {
    let mut c = curve_with(1, 2);
    c.token_sold = 9;
    c.is_active = false;
    let mint = Pubkey::new_from_array([7u8; 32]);
    assert!(c.init_bonding_curve(&11, &22, &mint, &3).is_ok());
    assert_eq!(c.virtual_sol_reserve, 11);
    assert_eq!(c.virtual_token_reserve, 22);
    assert_eq!(c.token_sold, 0);
    assert_eq!(c.token_mint, mint);
    assert!(c.is_active);
    assert_eq!(c.bump, 3);
    assert!(c.update_token_reserve(40).is_ok());
    assert!(c.update_sol_reserve(50).is_ok());
    assert_eq!(c.load_virtual_token_reserve(), Ok(40));
    assert_eq!(c.load_virtual_sol_reserve(), Ok(50));
}

#[test]
fn error_messages() {
    assert_eq!(ErrorCode::OverflowDetected.message(), "Overflow detected");
    assert_eq!(ErrorCode::InvalidTokenAmount.message(), "the token amount can't be zero");
    assert_eq!(ErrorCode::InsufficientFunds.message(), "insufficient funds in the account 'from' account");
}

#[test]
fn zero_payout_is_reported_before_reserve_overflow() {
    let mut b = curve_with(0, u64::MAX);
    assert_eq!(b.buy_logic(1), Err(ErrorCode::InvalidTokenAmount));
    assert_eq!(b.virtual_sol_reserve, u64::MAX);
    let mut s = curve_with(u64::MAX, 0);
    assert_eq!(s.sell_logic(1), Err(ErrorCode::InvalidSolAmount));
    assert_eq!(s.virtual_token_reserve, u64::MAX);
}
