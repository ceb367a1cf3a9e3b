use anchor_amm::{
    ConstantProduct, CurveError, LiquidityPair, SwapResult, TokenAmounts,
};

#[test]
fn swap_balance() {
    // If we start with 20 of token X and 30 of token Y and precision of 1, K should equal 600
    let mut pool = ConstantProduct::init(20, 30, 0, 0, None).unwrap();
    assert_eq!(pool.get_invariant().unwrap(), 600);
    assert_eq!(pool.balance_x(), 20);
    assert_eq!(pool.balance_y(), 30);

    // If we deposit 5 of token X, the user should receive 6 of token Y.
    // The final balances should be - Token X: 25, Token Y: 24.
    let res = pool.swap(LiquidityPair::TokenX, 5, 6).unwrap();
    assert_eq!(pool.get_invariant().unwrap(), 600);
    assert_eq!(res.deposited, 5);
    assert_eq!(res.withdrawn, 6);
    assert_eq!(pool.balance_x(), 25);
    assert_eq!(pool.balance_y(), 24);

    // If we deposit another 5 of token X, the user should receive 4 of token Y.
    // The final balances should be - Token X: 30, Token Y: 20.
    let res = pool.swap(LiquidityPair::TokenX, 5, 4).unwrap();
    assert_eq!(pool.get_invariant().unwrap(), 600);
    assert_eq!(res.deposited, 5);
    assert_eq!(res.withdrawn, 4);
    assert_eq!(pool.balance_x(), 30);
    assert_eq!(pool.balance_y(), 20);
}

#[test]
fn swap_balance_reverse() {
    // Start with 30 of token X and 20 of token Y: K should equal 600
    let mut pool = ConstantProduct::init(30, 20, 0, 0, None).unwrap();
    assert_eq!(pool.get_invariant().unwrap(), 600);
    assert_eq!(pool.balance_x(), 30);
    assert_eq!(pool.balance_y(), 20);

    // If we deposit 5 of token Y, the user should receive 6 of token X.
    // The final balances should be - Token Y: 25, Token X: 24.
    let res = pool.swap(LiquidityPair::TokenY, 5, 6).unwrap();
    assert_eq!(pool.get_invariant().unwrap(), 600);
    assert_eq!(res.deposited, 5);
    assert_eq!(res.withdrawn, 6);
    assert_eq!(pool.balance_x(), 24);
    assert_eq!(pool.balance_y(), 25);

    // If we deposit another 5 of token Y, the user should receive 4 of token X.
    // The final balances should be - Token Y: 30, Token X: 20.
    let res = pool.swap(LiquidityPair::TokenY, 5, 4).unwrap();
    assert_eq!(res.deposited, 5);
    assert_eq!(res.withdrawn, 4);
    assert_eq!(pool.balance_x(), 20);
    assert_eq!(pool.balance_y(), 30);
}

#[test]
fn swap_balance_with_fee() {
    // Start with 20 of token X and 30 of token Y: K should equal 600
    let mut pool = ConstantProduct::init(20, 30, 0, 100, None).unwrap();
    assert_eq!(pool.get_invariant().unwrap(), 600);
    assert_eq!(pool.balance_x(), 20);
    assert_eq!(pool.balance_y(), 30);

    // If we deposit 5 of token X, the user should pay a fee of 1 and thus only receive 5 of token Y.
    // The final balances should be - Token X: 24, Token Y: 25.
    let res = pool.swap(LiquidityPair::TokenX, 5, 5).unwrap();
    assert_eq!(res.deposited, 5);
    assert_eq!(res.withdrawn, 5);
    assert_eq!(res.fee, 1);
    assert_eq!(pool.balance_x(), 24);
    assert_eq!(pool.balance_y(), 25);
}

#[test]
fn deposit_liquidity() {
    // Start with 30 of token X and 30 of token Y: K should equal 900
    let mut pool = ConstantProduct::init(30, 30, 0, 100, None).unwrap();
    assert_eq!(pool.get_invariant().unwrap(), 900);
    assert_eq!(pool.balance_x(), 30);
    assert_eq!(pool.balance_y(), 30);

    // Deposit 30 LP tokens and assert balances.
    let r = pool.deposit_liquidity(30, 10000000, 10000000).unwrap();
    assert_eq!(r.deposited_x, 30);
    assert_eq!(r.deposited_y, 30);
    assert_eq!(r.minted_lp_tokens, 30);

    // Withdraw 30 LP tokens and assert balances.
    let r = pool.withdraw_liquidity(30, 0, 0).unwrap();
    assert_eq!(r.withdrawn_x, 30);
    assert_eq!(r.withdrawn_y, 30);
    assert_eq!(r.burned_lp_tokens, 30);
}

#[test]
fn spot_price() {
    let pool = ConstantProduct::init(10, 10, 0, 100, Some(0)).unwrap();
    assert_eq!(pool.get_spot_price_x().unwrap().amount, pool.get_spot_price_y().unwrap().amount);
    assert_eq!(pool.get_spot_price_x().unwrap().amount, 1)
}

#[test]
fn init_rejects_zero_balance() {
    assert_eq!(ConstantProduct::init(0, 30, 0, 0, None).unwrap_err(), CurveError::ZeroBalance);
    assert_eq!(ConstantProduct::init(20, 0, 0, 0, None).unwrap_err(), CurveError::ZeroBalance);
}

#[test]
fn init_rejects_fee_above_whole() {
    assert_eq!(ConstantProduct::init(20, 30, 0, 10001, None).unwrap_err(), CurveError::InvalidFeeAmount);
    assert!(ConstantProduct::init(20, 30, 0, 10000, None).is_ok());
}

#[test]
fn init_precision_digits() {
    assert_eq!(ConstantProduct::init(20, 30, 0, 0, None).unwrap().precision(), 1_000_000);
    assert_eq!(ConstantProduct::init(20, 30, 0, 0, Some(0)).unwrap().precision(), 1);
    assert_eq!(ConstantProduct::init(20, 30, 0, 0, Some(9)).unwrap().precision(), 1_000_000_000);
    assert_eq!(ConstantProduct::init(20, 30, 0, 0, Some(10)).unwrap_err(), CurveError::InvalidPrecision);
    assert_eq!(ConstantProduct::init(20, 30, 0, 0, Some(255)).unwrap_err(), CurveError::InvalidPrecision);
}

#[test]
fn init_share_count() {
    assert_eq!(ConstantProduct::init(20, 30, 0, 0, None).unwrap().total_lp_tokens(), 30);
    assert_eq!(ConstantProduct::init(40, 30, 0, 0, None).unwrap().total_lp_tokens(), 40);
    assert_eq!(ConstantProduct::init(20, 30, 7, 0, None).unwrap().total_lp_tokens(), 7);
    assert_eq!(ConstantProduct::init(20, 30, 7, 25, None).unwrap().fee_basis_points(), 25);
}

#[test]
fn invariant_calculator() {
    assert_eq!(ConstantProduct::calculate_invariant(20, 30), Ok(600));
    assert_eq!(
        ConstantProduct::calculate_invariant(u64::MAX, u64::MAX),
        Ok((u64::MAX as u128) * (u64::MAX as u128))
    );
    assert_eq!(ConstantProduct::calculate_invariant(0, 30), Err(CurveError::ZeroBalance));
}

#[test]
fn spot_price_calculators() {
    let p = ConstantProduct::calculate_spot_price_x(30, 20, 1_000_000).unwrap();
    assert_eq!(p.amount, 1_500_000);
    assert_eq!(p.precision, 1_000_000);
    let p = ConstantProduct::calculate_spot_price_y(30, 20, 1_000_000).unwrap();
    assert_eq!(p.amount, 666_666);
    assert_eq!(
        ConstantProduct::calculate_spot_price_x(30, 0, 10).unwrap_err(),
        CurveError::ZeroBalance
    );
}

#[test]
fn deposit_amounts_calculator() {
    assert_eq!(
        ConstantProduct::calculate_deposit_amounts(30, 60, 30, 15, 1_000_000),
        Ok(TokenAmounts { token_x: 15, token_y: 30 })
    );
    // ratio 4/3 held to six digits rounds each amount down
    assert_eq!(
        ConstantProduct::calculate_deposit_amounts(100, 100, 3, 1, 1_000_000),
        Ok(TokenAmounts { token_x: 33, token_y: 33 })
    );
    assert_eq!(
        ConstantProduct::calculate_deposit_amounts(30, 60, 0, 10, 1_000_000),
        Err(CurveError::Overflow)
    );
    assert_eq!(
        ConstantProduct::calculate_deposit_amounts(30, 60, 30, 10, 0),
        Err(CurveError::Overflow)
    );
    assert_eq!(
        ConstantProduct::calculate_deposit_amounts(u64::MAX, 1, 1, u64::MAX, 1_000_000),
        Err(CurveError::Overflow)
    );
}

#[test]
fn withdraw_amounts_calculator() {
    assert_eq!(
        ConstantProduct::calculate_withdraw_amounts(30, 60, 30, 15, 1_000_000),
        Ok(TokenAmounts { token_x: 15, token_y: 30 })
    );
    // a third of the shares: the burner's part rounds up, what stays rounds down
    assert_eq!(
        ConstantProduct::calculate_withdraw_amounts(30, 60, 30, 10, 1_000_000),
        Ok(TokenAmounts { token_x: 11, token_y: 21 })
    );
    assert_eq!(
        ConstantProduct::calculate_withdraw_amounts(30, 60, 30, 30, 1_000_000),
        Ok(TokenAmounts { token_x: 30, token_y: 60 })
    );
    assert_eq!(
        ConstantProduct::calculate_withdraw_amounts(30, 60, 30, 31, 1_000_000),
        Err(CurveError::Underflow)
    );
    assert_eq!(
        ConstantProduct::calculate_withdraw_amounts(30, 60, 0, 0, 1_000_000),
        Err(CurveError::Overflow)
    );
}

#[test]
fn swap_step_calculators() {
    assert_eq!(ConstantProduct::calculate_new_x_after_y_swap(30, 20, 5), Ok(24));
    assert_eq!(ConstantProduct::calculate_new_y_after_x_swap(20, 30, 5), Ok(24));
    assert_eq!(ConstantProduct::calculate_x_difference_from_y_swap(30, 20, 5), Ok(6));
    assert_eq!(ConstantProduct::calculate_y_difference_from_x_swap(20, 30, 5), Ok(6));
    assert_eq!(ConstantProduct::calculate_y_difference_from_x_swap(20, 30, 0), Ok(0));
    assert_eq!(
        ConstantProduct::calculate_new_x_after_y_swap(0, 20, 5),
        Err(CurveError::ZeroBalance)
    );
}

#[test]
fn swap_keeps_invariant_when_reserve_divides_it() {
    let mut pool = ConstantProduct::init(20, 30, 0, 0, None).unwrap();
    pool.swap(LiquidityPair::TokenX, 10, 0).unwrap();
    assert_eq!(pool.get_invariant().unwrap(), 600);
}

#[test]
fn swap_rounding_lowers_invariant() {
    // 27 does not divide 600: the new Y reserve rounds down to 22 and K drops by 600 % 27
    let mut pool = ConstantProduct::init(20, 30, 0, 0, None).unwrap();
    let res = pool.swap(LiquidityPair::TokenX, 7, 0).unwrap();
    assert_eq!(res.withdrawn, 8);
    assert_eq!(pool.balance_y(), 22);
    assert_eq!(pool.get_invariant().unwrap(), 600 - 600 % 27);
}

#[test]
fn swap_is_symmetric() {
    let mut a = ConstantProduct::init(20, 30, 0, 250, None).unwrap();
    let mut b = ConstantProduct::init(30, 20, 0, 250, None).unwrap();
    let ra = a.swap(LiquidityPair::TokenX, 9, 0).unwrap();
    let rb = b.swap(LiquidityPair::TokenY, 9, 0).unwrap();
    assert_eq!(ra, rb);
    assert_eq!(a.balance_x(), b.balance_y());
    assert_eq!(a.balance_y(), b.balance_x());
}

#[test]
fn swap_fee_stays_out_of_reserve() {
    // 1% of 100 is 1: 99 reaches the reserve
    let mut pool = ConstantProduct::init(1000, 1000, 0, 100, None).unwrap();
    let res = pool.swap(LiquidityPair::TokenY, 100, 0).unwrap();
    assert_eq!(res, SwapResult { deposited: 100, withdrawn: 91, fee: 1 });
    assert_eq!(pool.balance_y(), 1099);
    assert_eq!(pool.balance_x(), 909);
}

#[test]
fn swap_slippage_leaves_pool() {
    let mut pool = ConstantProduct::init(20, 30, 0, 0, None).unwrap();
    assert_eq!(
        pool.swap(LiquidityPair::TokenX, 5, 7).unwrap_err(),
        CurveError::SlippageLimitExceeded
    );
    assert_eq!(pool.balance_x(), 20);
    assert_eq!(pool.balance_y(), 30);
}

#[test]
fn swap_unsafe_ignores_slippage() {
    let mut pool = ConstantProduct::init(20, 30, 0, 0, None).unwrap();
    let res = pool.swap_unsafe(LiquidityPair::TokenX, 5).unwrap();
    assert_eq!(res.withdrawn, 6);
    assert_eq!(pool.balance_x(), 25);
}

#[test]
fn swap_overflow_leaves_pool() {
    let mut pool = ConstantProduct::init(u64::MAX - 1, 30, 0, 0, None).unwrap();
    assert_eq!(pool.swap(LiquidityPair::TokenX, 5, 0).unwrap_err(), CurveError::Overflow);
    assert_eq!(pool.balance_x(), u64::MAX - 1);
    assert_eq!(pool.balance_y(), 30);
}

#[test]
fn zero_amounts_rejected() {
    let mut pool = ConstantProduct::init(20, 30, 0, 0, None).unwrap();
    assert_eq!(pool.swap(LiquidityPair::TokenX, 0, 0).unwrap_err(), CurveError::ZeroBalance);
    assert_eq!(pool.swap_unsafe(LiquidityPair::TokenY, 0).unwrap_err(), CurveError::ZeroBalance);
    assert_eq!(pool.deposit_liquidity(0, 100, 100).unwrap_err(), CurveError::ZeroBalance);
    assert_eq!(pool.withdraw_liquidity(0, 0, 0).unwrap_err(), CurveError::ZeroBalance);
    assert_eq!(pool.deposit_liquidity_unsafe(0, 1, 1).unwrap_err(), CurveError::ZeroBalance);
    assert_eq!(pool.withdraw_liquidity_unsafe(1, 1, 0).unwrap_err(), CurveError::ZeroBalance);
    assert_eq!(pool.balance_x(), 20);
    assert_eq!(pool.balance_y(), 30);
    assert_eq!(pool.total_lp_tokens(), 30);
}

#[test]
fn deposit_moves_reserves_and_shares() {
    let mut pool = ConstantProduct::init(30, 60, 30, 0, None).unwrap();
    let r = pool.deposit_liquidity(15, 15, 30).unwrap();
    assert_eq!((r.deposited_x, r.deposited_y, r.minted_lp_tokens), (15, 30, 15));
    assert_eq!(pool.balance_x(), 45);
    assert_eq!(pool.balance_y(), 90);
    assert_eq!(pool.total_lp_tokens(), 45);
}

#[test]
fn deposit_slippage_rejected() {
    let mut pool = ConstantProduct::init(30, 60, 30, 0, None).unwrap();
    assert_eq!(pool.deposit_liquidity(15, 15, 29).unwrap_err(), CurveError::SlippageLimitExceeded);
    assert_eq!(pool.deposit_liquidity(15, 14, 30).unwrap_err(), CurveError::SlippageLimitExceeded);
    assert_eq!(pool.balance_x(), 30);
    assert_eq!(pool.total_lp_tokens(), 30);
}

#[test]
fn withdraw_slippage_rejected() {
    let mut pool = ConstantProduct::init(30, 60, 30, 0, None).unwrap();
    assert_eq!(pool.withdraw_liquidity(15, 16, 0).unwrap_err(), CurveError::SlippageLimitExceeded);
    assert_eq!(pool.withdraw_liquidity(15, 0, 31).unwrap_err(), CurveError::SlippageLimitExceeded);
    let r = pool.withdraw_liquidity(15, 15, 30).unwrap();
    assert_eq!((r.withdrawn_x, r.withdrawn_y, r.burned_lp_tokens), (15, 30, 15));
    assert_eq!(pool.balance_x(), 15);
    assert_eq!(pool.balance_y(), 30);
    assert_eq!(pool.total_lp_tokens(), 15);
}

#[test]
fn withdraw_more_shares_than_exist() {
    let mut pool = ConstantProduct::init(30, 60, 30, 0, None).unwrap();
    assert_eq!(pool.withdraw_liquidity(31, 0, 0).unwrap_err(), CurveError::Underflow);
}

#[test]
fn deposit_then_withdraw_round_trip() {
    let mut pool = ConstantProduct::init(1000, 777, 3, 0, Some(2)).unwrap();
    let d = pool.deposit_liquidity(1, u64::MAX, u64::MAX).unwrap();
    assert_eq!((d.deposited_x, d.deposited_y), (330, 256));
    let w = pool.withdraw_liquidity(1, 0, 0).unwrap();
    assert_eq!(w.burned_lp_tokens, 1);
    assert_eq!(pool.total_lp_tokens(), 3);
    // within the rounding tolerance, never above the start
    assert!(pool.balance_x() <= 1000 && (1000 - pool.balance_x()) * 100 < 1000 + 1330 + 200);
    assert!(pool.balance_y() <= 777 && (777 - pool.balance_y()) * 100 < 777 + 1033 + 200);
}

#[test]
fn unsafe_liquidity_moves() {
    let mut pool = ConstantProduct::init(30, 60, 30, 0, None).unwrap();
    let d = pool.deposit_liquidity_unsafe(5, 7, 9).unwrap();
    assert_eq!((d.deposited_x, d.deposited_y, d.minted_lp_tokens), (5, 7, 9));
    assert_eq!((pool.balance_x(), pool.balance_y(), pool.total_lp_tokens()), (35, 67, 39));
    let w = pool.withdraw_liquidity_unsafe(34, 1, 2).unwrap();
    assert_eq!((w.withdrawn_x, w.withdrawn_y, w.burned_lp_tokens), (34, 1, 2));
    assert_eq!((pool.balance_x(), pool.balance_y(), pool.total_lp_tokens()), (1, 66, 37));
    // taking a whole reserve is refused
    assert_eq!(pool.withdraw_liquidity_unsafe(1, 1, 1).unwrap_err(), CurveError::ZeroBalance);
    assert_eq!(pool.withdraw_liquidity_unsafe(1, 1, 37).unwrap_err(), CurveError::ZeroBalance);
    assert_eq!((pool.balance_x(), pool.balance_y(), pool.total_lp_tokens()), (1, 66, 37));
}

#[test]
fn unsafe_liquidity_errors() {
    let mut pool = ConstantProduct::init(30, 60, 30, 0, None).unwrap();
    assert_eq!(pool.withdraw_liquidity_unsafe(31, 1, 1).unwrap_err(), CurveError::InsufficientBalance);
    assert_eq!(pool.withdraw_liquidity_unsafe(1, 1, 31).unwrap_err(), CurveError::Underflow);
    assert_eq!(pool.deposit_liquidity_unsafe(u64::MAX, 1, 1).unwrap_err(), CurveError::Overflow);
    assert_eq!((pool.balance_x(), pool.balance_y(), pool.total_lp_tokens()), (30, 60, 30));
}

#[test]
fn withdrawing_every_share_refused() {
    let mut pool = ConstantProduct::init(30, 60, 30, 0, None).unwrap();
    assert_eq!(pool.withdraw_liquidity(30, 0, 0).unwrap_err(), CurveError::ZeroBalance);
    assert_eq!((pool.balance_x(), pool.balance_y(), pool.total_lp_tokens()), (30, 60, 30));
    let w = pool.withdraw_liquidity(20, 0, 0).unwrap();
    assert_eq!((w.withdrawn_x, w.withdrawn_y), (21, 41));
    assert_eq!((pool.balance_x(), pool.balance_y(), pool.total_lp_tokens()), (9, 19, 10));
}

#[test]
fn swap_emptying_reserve_refused() {
    // 1 * 1 / (1 + 2) rounds down to 0: the whole Y reserve would be paid out
    let mut pool = ConstantProduct::init(1, 1, 0, 0, None).unwrap();
    assert_eq!(pool.swap_unsafe(LiquidityPair::TokenX, 2).unwrap_err(), CurveError::ZeroBalance);
    assert_eq!(pool.swap(LiquidityPair::TokenY, 2, 0).unwrap_err(), CurveError::ZeroBalance);
    assert_eq!((pool.balance_x(), pool.balance_y()), (1, 1));
}

#[test]
fn swap_slippage_reported_before_empty_reserve() {
    // pays out 1 of the single Y, short of the minimum 2: slippage is what is reported
    let mut pool = ConstantProduct::init(1, 1, 0, 0, None).unwrap();
    assert_eq!(
        pool.swap(LiquidityPair::TokenX, 1, 2).unwrap_err(),
        CurveError::SlippageLimitExceeded
    );
    assert_eq!((pool.balance_x(), pool.balance_y()), (1, 1));
}
