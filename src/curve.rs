//! The constant-product curve: pure calculators and the stateful pool.

use vstd::prelude::*;

use crate::arith::{
    lemma_div_larger, lemma_mul_le, lemma_pow10_grows, lemma_scale_ge, lemma_scale_le, pow10,
};

verus! {

/// Which asset a trader puts into the pool.
#[derive(Debug, Clone, Copy, PartialEq, Eq, Structural)]
pub enum LiquidityPair {
    TokenX,
    TokenY,
}

/// The price of one asset in units of the other, scaled by `precision`.
#[derive(Debug, Clone, Copy, PartialEq, Eq, Structural)]
pub struct SpotPrice {
    pub amount: u128,
    pub precision: u32,
}

/// A pair of amounts, one of each asset.
#[derive(Debug, Clone, Copy, PartialEq, Eq, Structural)]
pub struct TokenAmounts {
    pub token_x: u64,
    pub token_y: u64,
}

/// What a liquidity deposit took in and minted.
#[derive(Debug, Clone, Copy, PartialEq, Eq, Structural)]
pub struct DepositLiquidityResult {
    pub deposited_x: u64,
    pub deposited_y: u64,
    pub minted_lp_tokens: u64,
}

/// What a liquidity withdrawal paid out and burned.
#[derive(Debug, Clone, Copy, PartialEq, Eq, Structural)]
pub struct WithdrawLiquidityResult {
    pub withdrawn_x: u64,
    pub withdrawn_y: u64,
    pub burned_lp_tokens: u64,
}

/// What a swap took in, paid out, and kept as fee.
#[derive(Debug, Clone, Copy, PartialEq, Eq, Structural)]
pub struct SwapResult {
    pub deposited: u64,
    pub withdrawn: u64,
    pub fee: u64,
}

/// Why a pool calculation was refused.
#[derive(Debug, Clone, Copy, PartialEq, Eq, Structural)]
pub enum CurveError {
    InvalidPrecision,
    Overflow,
    Underflow,
    InvalidFeeAmount,
    InsufficientBalance,
    ZeroBalance,
    SlippageLimitExceeded,
}

/// The largest value a `u64` holds, as a mathematical integer.
pub open spec fn u64_max() -> int {
    0xffff_ffff_ffff_ffffint
}

/// The largest value a `u128` holds, as a mathematical integer.
pub open spec fn u128_max() -> int {
    0xffff_ffff_ffff_ffff_ffff_ffff_ffff_ffffint
}

/// The number of basis points in a whole.
pub const BASIS_POINTS: u16 = 10000;

/// The pool invariant K: the product of the two reserves.
pub open spec fn invariant_of(x: int, y: int) -> int {
    x * y
}

/// The price of X in units of Y, scaled by `p`.
pub open spec fn spot_price_of(x: int, y: int, p: int) -> int {
    x * p / y
}

/// The scaled growth factor of the share supply when `n` shares join `t`.
pub open spec fn deposit_ratio(t: int, n: int, p: int) -> int {
    (t + n) * p / t
}

/// What one reserve `bal` must grow by when `n` shares join `t`.
pub open spec fn deposit_part(bal: int, t: int, n: int, p: int) -> int {
    bal * deposit_ratio(t, n, p) / p - bal
}

/// Whether every step of the deposit calculation fits its integer width.
pub open spec fn deposit_fits(x: int, y: int, t: int, n: int, p: int) -> bool {
    &&& t > 0
    &&& p > 0
    &&& x * deposit_ratio(t, n, p) <= u128_max()
    &&& y * deposit_ratio(t, n, p) <= u128_max()
    &&& deposit_part(x, t, n, p) <= u64_max()
    &&& deposit_part(y, t, n, p) <= u64_max()
}

/// The scaled fraction of the share supply that remains when `b` of `t` shares burn.
pub open spec fn withdraw_ratio(t: int, b: int, p: int) -> int {
    (t - b) * p / t
}

/// What one reserve `bal` pays out when `b` of `t` shares burn.
pub open spec fn withdraw_part(bal: int, t: int, b: int, p: int) -> int {
    bal - bal * withdraw_ratio(t, b, p) / p
}

/// The reserve on the paid-out side after `a` joins the `in_bal` side, keeping K.
pub open spec fn out_balance_after(in_bal: int, out_bal: int, a: int) -> int {
    out_bal * in_bal / (in_bal + a)
}

/// What a swap pays out when `a` joins the `in_bal` side.
pub open spec fn payout(in_bal: int, out_bal: int, a: int) -> int {
    out_bal - out_balance_after(in_bal, out_bal, a)
}

/// The part of `amount` that reaches the priced reserve, once the fee is taken.
pub open spec fn effective_input(amount: int, fee_bps: int) -> int {
    amount * (10000 - fee_bps) / 10000
}

/// The spot price of X in units of Y, refused where a reserve is zero.
pub open spec fn spot_price_spec(x: u64, y: u64, p: u32) -> Result<SpotPrice, CurveError> {
    if x == 0 || y == 0 {
        Err(CurveError::ZeroBalance)
    } else {
        Ok(SpotPrice { amount: spot_price_of(x as int, y as int, p as int) as u128, precision: p })
    }
}

/// The amounts that minting `n` shares requires, or `Overflow` where a step
/// does not fit its integer width.
pub open spec fn deposit_amounts_spec(x: u64, y: u64, t: u64, n: u64, p: u32) -> Result<
    TokenAmounts,
    CurveError,
> {
    if deposit_fits(x as int, y as int, t as int, n as int, p as int) {
        Ok(
            TokenAmounts {
                token_x: deposit_part(x as int, t as int, n as int, p as int) as u64,
                token_y: deposit_part(y as int, t as int, n as int, p as int) as u64,
            },
        )
    } else {
        Err(CurveError::Overflow)
    }
}

/// The amounts that burning `b` of `t` shares pays out: `Underflow` where
/// `b > t`, `Overflow` where a divisor is zero.
pub open spec fn withdraw_amounts_spec(x: u64, y: u64, t: u64, b: u64, p: u32) -> Result<
    TokenAmounts,
    CurveError,
> {
    if b > t {
        Err(CurveError::Underflow)
    } else if t == 0 || p == 0 {
        Err(CurveError::Overflow)
    } else {
        Ok(
            TokenAmounts {
                token_x: withdraw_part(x as int, t as int, b as int, p as int) as u64,
                token_y: withdraw_part(y as int, t as int, b as int, p as int) as u64,
            },
        )
    }
}

/// The numbers that describe a pool: its model.
#[derive(Debug, Clone, Copy, PartialEq, Eq, Structural)]
pub struct PoolState {
    pub balance_x: u64,
    pub balance_y: u64,
    pub total_lp_tokens: u64,
    pub fee_basis_points: u16,
    pub precision: u32,
}

/// The precision that `digits` asks for: `10^digits`, or `10^6` by default.
pub open spec fn precision_spec(digits: Option<u8>) -> int {
    match digits {
        Some(d) => pow10(d as nat),
        None => 1_000_000,
    }
}

/// The pool that `init` builds, or why it refuses.
pub open spec fn init_spec(
    x: u64,
    y: u64,
    initial_lp_tokens: u64,
    fee_bps: u16,
    digits: Option<u8>,
) -> Result<PoolState, CurveError> {
    if x == 0 || y == 0 {
        Err(CurveError::ZeroBalance)
    } else if fee_bps > 10000 {
        Err(CurveError::InvalidFeeAmount)
    } else if precision_spec(digits) > u32::MAX {
        Err(CurveError::InvalidPrecision)
    } else {
        Ok(
            PoolState {
                balance_x: x,
                balance_y: y,
                total_lp_tokens: if initial_lp_tokens > 0 {
                    initial_lp_tokens
                } else if x >= y {
                    x
                } else {
                    y
                },
                fee_basis_points: fee_bps,
                precision: precision_spec(digits) as u32,
            },
        )
    }
}

/// The pool with new reserves, the rest unchanged.
pub open spec fn with_balances(s: PoolState, x: int, y: int) -> PoolState {
    PoolState {
        balance_x: x as u64,
        balance_y: y as u64,
        total_lp_tokens: s.total_lp_tokens,
        fee_basis_points: s.fee_basis_points,
        precision: s.precision,
    }
}

/// The reserve that a swap of `pair` takes in, and the one it pays out from.
pub open spec fn in_out(s: PoolState, pair: LiquidityPair) -> (int, int) {
    match pair {
        LiquidityPair::TokenX => (s.balance_x as int, s.balance_y as int),
        LiquidityPair::TokenY => (s.balance_y as int, s.balance_x as int),
    }
}

/// A swap of `amount` of `pair` into `s`, paying out at least `min_out` and
/// leaving both reserves non-zero.
pub open spec fn swap_spec(s: PoolState, pair: LiquidityPair, amount: u64, min_out: u64) -> Result<
    (PoolState, SwapResult),
    CurveError,
> {
    let in_bal = in_out(s, pair).0;
    let out_bal = in_out(s, pair).1;
    let eff = effective_input(amount as int, s.fee_basis_points as int);
    let paid = payout(in_bal, out_bal, eff);
    if amount == 0 || s.balance_x == 0 || s.balance_y == 0 {
        Err(CurveError::ZeroBalance)
    } else if in_bal + eff > u64_max() {
        Err(CurveError::Overflow)
    } else if paid < min_out {
        Err(CurveError::SlippageLimitExceeded)
    } else if out_balance_after(in_bal, out_bal, eff) == 0 {
        Err(CurveError::ZeroBalance)
    } else {
        let new_in = in_bal + eff;
        let new_out = out_balance_after(in_bal, out_bal, eff);
        let next = match pair {
            LiquidityPair::TokenX => with_balances(s, new_in, new_out),
            LiquidityPair::TokenY => with_balances(s, new_out, new_in),
        };
        Ok((next, SwapResult { deposited: amount, withdrawn: paid as u64, fee: (amount - eff) as u64 }))
    }
}

/// Adding `dx`, `dy` to the reserves and minting `n` shares, where nothing overflows.
pub open spec fn apply_deposit_spec(s: PoolState, dx: u64, dy: u64, n: u64) -> Result<
    (PoolState, DepositLiquidityResult),
    CurveError,
> {
    if s.balance_x + dx > u64_max() || s.balance_y + dy > u64_max() || s.total_lp_tokens + n
        > u64_max() {
        Err(CurveError::Overflow)
    } else {
        Ok(
            (
                PoolState {
                    balance_x: (s.balance_x + dx) as u64,
                    balance_y: (s.balance_y + dy) as u64,
                    total_lp_tokens: (s.total_lp_tokens + n) as u64,
                    fee_basis_points: s.fee_basis_points,
                    precision: s.precision,
                },
                DepositLiquidityResult { deposited_x: dx, deposited_y: dy, minted_lp_tokens: n },
            ),
        )
    }
}

/// Minting `n` shares for the proportional amounts, each at most its bound.
pub open spec fn deposit_spec(s: PoolState, n: u64, max_x: u64, max_y: u64) -> Result<
    (PoolState, DepositLiquidityResult),
    CurveError,
> {
    if n == 0 || s.balance_x == 0 || s.balance_y == 0 {
        Err(CurveError::ZeroBalance)
    } else {
        match deposit_amounts_spec(s.balance_x, s.balance_y, s.total_lp_tokens, n, s.precision) {
            Err(e) => Err(e),
            Ok(a) => if a.token_x > max_x || a.token_y > max_y {
                Err(CurveError::SlippageLimitExceeded)
            } else {
                apply_deposit_spec(s, a.token_x, a.token_y, n)
            },
        }
    }
}

/// Taking in exactly `dx`, `dy` and minting `n` shares, with no bound checked.
pub open spec fn deposit_unsafe_spec(s: PoolState, dx: u64, dy: u64, n: u64) -> Result<
    (PoolState, DepositLiquidityResult),
    CurveError,
> {
    if dx == 0 || dy == 0 || n == 0 {
        Err(CurveError::ZeroBalance)
    } else {
        apply_deposit_spec(s, dx, dy, n)
    }
}

/// Taking `wx`, `wy` out of the reserves and burning `b` shares, where all are
/// there and none of the three is taken down to zero.
pub open spec fn apply_withdraw_spec(s: PoolState, wx: u64, wy: u64, b: u64) -> Result<
    (PoolState, WithdrawLiquidityResult),
    CurveError,
> {
    if wx > s.balance_x || wy > s.balance_y {
        Err(CurveError::InsufficientBalance)
    } else if b > s.total_lp_tokens {
        Err(CurveError::Underflow)
    } else if wx == s.balance_x || wy == s.balance_y || b == s.total_lp_tokens {
        Err(CurveError::ZeroBalance)
    } else {
        Ok(
            (
                PoolState {
                    balance_x: (s.balance_x - wx) as u64,
                    balance_y: (s.balance_y - wy) as u64,
                    total_lp_tokens: (s.total_lp_tokens - b) as u64,
                    fee_basis_points: s.fee_basis_points,
                    precision: s.precision,
                },
                WithdrawLiquidityResult { withdrawn_x: wx, withdrawn_y: wy, burned_lp_tokens: b },
            ),
        )
    }
}

/// Burning `b` shares for the proportional amounts, each at least its bound.
pub open spec fn withdraw_spec(s: PoolState, b: u64, min_x: u64, min_y: u64) -> Result<
    (PoolState, WithdrawLiquidityResult),
    CurveError,
> {
    if b == 0 || s.balance_x == 0 || s.balance_y == 0 {
        Err(CurveError::ZeroBalance)
    } else {
        match withdraw_amounts_spec(s.balance_x, s.balance_y, s.total_lp_tokens, b, s.precision) {
            Err(e) => Err(e),
            Ok(a) => if a.token_x < min_x || a.token_y < min_y {
                Err(CurveError::SlippageLimitExceeded)
            } else {
                apply_withdraw_spec(s, a.token_x, a.token_y, b)
            },
        }
    }
}

/// Paying out exactly `wx`, `wy` and burning `b` shares, with no bound checked.
pub open spec fn withdraw_unsafe_spec(s: PoolState, wx: u64, wy: u64, b: u64) -> Result<
    (PoolState, WithdrawLiquidityResult),
    CurveError,
> {
    if wx == 0 || wy == 0 || b == 0 {
        Err(CurveError::ZeroBalance)
    } else {
        apply_withdraw_spec(s, wx, wy, b)
    }
}

/// `r` is what `outcome` describes: on success the pool moved from `before` to
/// `after`; on failure it is the same error and the pool did not move.
pub open spec fn outcome_matches<T>(
    outcome: Result<(PoolState, T), CurveError>,
    before: PoolState,
    after: PoolState,
    r: Result<T, CurveError>,
) -> bool {
    match r {
        Ok(o) => outcome == Ok::<(PoolState, T), CurveError>((after, o)),
        Err(e) => outcome == Err::<(PoolState, T), CurveError>(e) && after == before,
    }
}

/// The four numbers of a pool and its precision.
#[derive(Debug)]
pub struct ConstantProduct {
    balance_x: u64,
    balance_y: u64,
    total_lp_tokens: u64,
    fee_basis_points: u16,
    precision: u32,
}

impl ConstantProduct {
    /// The invariant K = x * y, computed in 128 bits.
    pub fn calculate_invariant(balance_x: u64, balance_y: u64) -> (r: Result<u128, CurveError>)
        ensures
            balance_x == 0 || balance_y == 0 ==> r == Err::<u128, CurveError>(
                CurveError::ZeroBalance,
            ),
            balance_x != 0 && balance_y != 0 ==> r is Ok && r->Ok_0 == invariant_of(
                balance_x as int,
                balance_y as int,
            ),
    {
        if balance_x == 0 || balance_y == 0 {
            return Err(CurveError::ZeroBalance);
        }
        proof {
            lemma_mul_le(balance_x as int, balance_y as int, u64_max(), u64_max());
        }
        Ok((balance_x as u128) * (balance_y as u128))
    }

    /// The price of X in units of Y, scaled by `precision`.
    pub fn calculate_spot_price_x(balance_x: u64, balance_y: u64, precision: u32) -> (r: Result<
        SpotPrice,
        CurveError,
    >)
        ensures
            r == spot_price_spec(balance_x, balance_y, precision),
    {
        if balance_x == 0 || balance_y == 0 {
            return Err(CurveError::ZeroBalance);
        }
        proof {
            lemma_mul_le(balance_x as int, precision as int, u64_max(), 0xffff_ffff);
            lemma_div_larger(balance_x as int * precision as int, 1, balance_y as int);
        }
        let scaled = (balance_x as u128) * (precision as u128);
        Ok(SpotPrice { amount: scaled / (balance_y as u128), precision })
    }

    /// The price of Y in units of X, scaled by `precision`.
    pub fn calculate_spot_price_y(balance_x: u64, balance_y: u64, precision: u32) -> (r: Result<
        SpotPrice,
        CurveError,
    >)
        ensures
            r == spot_price_spec(balance_y, balance_x, precision),
    {
        Self::calculate_spot_price_x(balance_y, balance_x, precision)
    }

    /// `balance * ratio / (precision as int) - balance`, if every step fits.
    fn grown_part(balance: u64, ratio: u128, precision: u32) -> (r: Option<u64>)
        requires
            0 < precision <= ratio,
        ensures
            r == (if balance * ratio <= u128_max() && balance * ratio / (precision as int) - balance
                <= u64_max() {
                Some((balance * ratio / (precision as int) - balance) as u64)
            } else {
                None::<u64>
            }),
    {
        let product = match (balance as u128).checked_mul(ratio) {
            Some(v) => v,
            None => return None,
        };
        let scaled = product / (precision as u128);
        proof {
            lemma_scale_ge(balance as int, ratio as int, precision as int);
        }
        let part = scaled - (balance as u128);
        if part > (u64::MAX as u128) {
            return None;
        }
        Some(part as u64)
    }

    /// The amounts of X and Y that minting `lp_tokens_to_mint` new shares requires.
    pub fn calculate_deposit_amounts(
        balance_x: u64,
        balance_y: u64,
        total_lp_tokens: u64,
        lp_tokens_to_mint: u64,
        precision: u32,
    ) -> (r: Result<TokenAmounts, CurveError>)
        ensures
            r == deposit_amounts_spec(
                balance_x,
                balance_y,
                total_lp_tokens,
                lp_tokens_to_mint,
                precision,
            ),
    {
        if total_lp_tokens == 0 || precision == 0 {
            return Err(CurveError::Overflow);
        }
        let t = total_lp_tokens as u128;
        let n = lp_tokens_to_mint as u128;
        proof {
            lemma_mul_le(t + n, precision as int, 2 * u64_max(), 0xffff_ffff);
        }
        let ratio = (t + n) * (precision as u128) / t;
        proof {
            lemma_scale_ge(precision as int, t + n, t as int);
        }
        let deposit_x = match Self::grown_part(balance_x, ratio, precision) {
            Some(v) => v,
            None => return Err(CurveError::Overflow),
        };
        let deposit_y = match Self::grown_part(balance_y, ratio, precision) {
            Some(v) => v,
            None => return Err(CurveError::Overflow),
        };
        Ok(TokenAmounts { token_x: deposit_x, token_y: deposit_y })
    }

    /// `balance - balance * ratio / (precision as int)`.
    fn shrunk_part(balance: u64, ratio: u128, precision: u32) -> (r: u64)
        requires
            0 < precision,
            ratio <= precision,
        ensures
            r == balance - balance * ratio / (precision as int),
    {
        proof {
            lemma_mul_le(balance as int, ratio as int, u64_max(), 0xffff_ffff);
            lemma_scale_le(balance as int, ratio as int, precision as int);
        }
        let kept = (balance as u128) * ratio / (precision as u128);
        (balance as u128 - kept) as u64
    }

    /// The amounts of X and Y that burning `lp_tokens_to_burn` shares pays out.
    pub fn calculate_withdraw_amounts(
        balance_x: u64,
        balance_y: u64,
        total_lp_tokens: u64,
        lp_tokens_to_burn: u64,
        precision: u32,
    ) -> (r: Result<TokenAmounts, CurveError>)
        ensures
            r == withdraw_amounts_spec(
                balance_x,
                balance_y,
                total_lp_tokens,
                lp_tokens_to_burn,
                precision,
            ),
    {
        if lp_tokens_to_burn > total_lp_tokens {
            return Err(CurveError::Underflow);
        }
        if total_lp_tokens == 0 || precision == 0 {
            return Err(CurveError::Overflow);
        }
        let remaining = (total_lp_tokens - lp_tokens_to_burn) as u128;
        proof {
            lemma_mul_le(remaining as int, precision as int, u64_max(), 0xffff_ffff);
            lemma_scale_le(precision as int, remaining as int, total_lp_tokens as int);
        }
        let ratio = remaining * (precision as u128) / (total_lp_tokens as u128);
        Ok(
            TokenAmounts {
                token_x: Self::shrunk_part(balance_x, ratio, precision),
                token_y: Self::shrunk_part(balance_y, ratio, precision),
            },
        )
    }

    /// The new X reserve once `amount_y` of Y joins the pool, keeping K.
    pub fn calculate_new_x_after_y_swap(balance_x: u64, balance_y: u64, amount_y: u64) -> (r:
        Result<u64, CurveError>)
        ensures
            balance_x == 0 || balance_y == 0 ==> r == Err::<u64, CurveError>(
                CurveError::ZeroBalance,
            ),
            balance_x != 0 && balance_y != 0 ==> r is Ok && r->Ok_0 == out_balance_after(
                balance_y as int,
                balance_x as int,
                amount_y as int,
            ),
            r is Ok ==> r->Ok_0 <= balance_x,
    {
        let k = match Self::calculate_invariant(balance_x, balance_y) {
            Ok(k) => k,
            Err(e) => return Err(e),
        };
        let new_y = (balance_y as u128) + (amount_y as u128);
        proof {
            lemma_div_larger(balance_x as int, balance_y as int, new_y as int);
        }
        Ok((k / new_y) as u64)
    }

    /// The new Y reserve once `amount_x` of X joins the pool, keeping K.
    pub fn calculate_new_y_after_x_swap(balance_x: u64, balance_y: u64, amount_x: u64) -> (r:
        Result<u64, CurveError>)
        ensures
            balance_x == 0 || balance_y == 0 ==> r == Err::<u64, CurveError>(
                CurveError::ZeroBalance,
            ),
            balance_x != 0 && balance_y != 0 ==> r is Ok && r->Ok_0 == out_balance_after(
                balance_x as int,
                balance_y as int,
                amount_x as int,
            ),
            r is Ok ==> r->Ok_0 <= balance_y,
    {
        Self::calculate_new_x_after_y_swap(balance_y, balance_x, amount_x)
    }

    /// How much X leaves the pool when `amount_y` of Y joins it.
    pub fn calculate_x_difference_from_y_swap(
        balance_x: u64,
        balance_y: u64,
        amount_y: u64,
    ) -> (r: Result<u64, CurveError>)
        ensures
            balance_x == 0 || balance_y == 0 ==> r == Err::<u64, CurveError>(
                CurveError::ZeroBalance,
            ),
            balance_x != 0 && balance_y != 0 ==> r is Ok && r->Ok_0 == payout(
                balance_y as int,
                balance_x as int,
                amount_y as int,
            ),
    {
        let new_x = match Self::calculate_new_x_after_y_swap(balance_x, balance_y, amount_y) {
            Ok(v) => v,
            Err(e) => return Err(e),
        };
        match balance_x.checked_sub(new_x) {
            Some(d) => Ok(d),
            None => Err(CurveError::Overflow),
        }
    }

    /// How much Y leaves the pool when `amount_x` of X joins it.
    pub fn calculate_y_difference_from_x_swap(
        balance_x: u64,
        balance_y: u64,
        amount_x: u64,
    ) -> (r: Result<u64, CurveError>)
        ensures
            balance_x == 0 || balance_y == 0 ==> r == Err::<u64, CurveError>(
                CurveError::ZeroBalance,
            ),
            balance_x != 0 && balance_y != 0 ==> r is Ok && r->Ok_0 == payout(
                balance_x as int,
                balance_y as int,
                amount_x as int,
            ),
    {
        Self::calculate_x_difference_from_y_swap(balance_y, balance_x, amount_x)
    }
}

impl View for ConstantProduct {
    type V = PoolState;

    closed spec fn view(&self) -> PoolState {
        PoolState {
            balance_x: self.balance_x,
            balance_y: self.balance_y,
            total_lp_tokens: self.total_lp_tokens,
            fee_basis_points: self.fee_basis_points,
            precision: self.precision,
        }
    }
}

/// Ten to the power `digits`, or `None` where that exceeds `u32`.
fn checked_pow10(digits: u8) -> (r: Option<u32>)
    ensures
        r == (if pow10(digits as nat) <= u32::MAX {
            Some(pow10(digits as nat) as u32)
        } else {
            None::<u32>
        }),
{
    let mut acc: u32 = 1;
    let mut i: u8 = 0;
    while i < digits
        invariant
            i <= digits,
            acc == pow10(i as nat),
        decreases digits - i,
    {
        if acc > 429_496_729 {
            proof {
                lemma_pow10_grows((i + 1) as nat, digits as nat);
            }
            return None;
        }
        acc = acc * 10;
        i = i + 1;
    }
    Some(acc)
}

/// `amount` less the fee of `fee_bps` basis points, rounded down.
fn effective_amount(amount: u64, fee_bps: u16) -> (r: u64)
    requires
        fee_bps <= 10000,
    ensures
        r == effective_input(amount as int, fee_bps as int),
        r <= amount,
{
    let keep = (BASIS_POINTS - fee_bps) as u128;
    proof {
        lemma_mul_le(amount as int, keep as int, u64_max(), 10000);
        lemma_scale_le(amount as int, keep as int, 10000);
    }
    ((amount as u128) * keep / (BASIS_POINTS as u128)) as u64
}

impl ConstantProduct {
    /// What every pool keeps true: a fee of at most a whole, a positive
    /// precision, and non-zero reserves and share supply.
    pub open spec fn wf(&self) -> bool {
        &&& self@.fee_basis_points <= 10000
        &&& self@.precision > 0
        &&& self@.balance_x > 0
        &&& self@.balance_y > 0
        &&& self@.total_lp_tokens > 0
    }

    /// A pool with the given reserves; with no share count given, the larger reserve.
    pub fn init(
        balance_x: u64,
        balance_y: u64,
        initial_lp_tokens: u64,
        fee_basis_points: u16,
        precision: Option<u8>,
    ) -> (r: Result<ConstantProduct, CurveError>)
        ensures
            match r {
                Ok(pool) => init_spec(
                    balance_x,
                    balance_y,
                    initial_lp_tokens,
                    fee_basis_points,
                    precision,
                ) == Ok::<PoolState, CurveError>(pool@) && pool.wf(),
                Err(e) => init_spec(
                    balance_x,
                    balance_y,
                    initial_lp_tokens,
                    fee_basis_points,
                    precision,
                ) == Err::<PoolState, CurveError>(e),
            },
    {
        if balance_x == 0 || balance_y == 0 {
            return Err(CurveError::ZeroBalance);
        }
        if fee_basis_points > BASIS_POINTS {
            return Err(CurveError::InvalidFeeAmount);
        }
        let precision = match precision {
            Some(d) => match checked_pow10(d) {
                Some(p) => {
                    proof {
                        lemma_pow10_grows(0, d as nat);
                    }
                    p
                },
                None => return Err(CurveError::InvalidPrecision),
            },
            None => 1_000_000,
        };
        let total_lp_tokens = if initial_lp_tokens > 0 {
            initial_lp_tokens
        } else if balance_x >= balance_y {
            balance_x
        } else {
            balance_y
        };
        Ok(
            ConstantProduct {
                balance_x,
                balance_y,
                total_lp_tokens,
                fee_basis_points,
                precision,
            },
        )
    }

    /// The reserve of X.
    pub fn balance_x(&self) -> (r: u64)
        ensures
            r == self@.balance_x,
    {
        self.balance_x
    }

    /// The reserve of Y.
    pub fn balance_y(&self) -> (r: u64)
        ensures
            r == self@.balance_y,
    {
        self.balance_y
    }

    /// The number of pool shares outstanding.
    pub fn total_lp_tokens(&self) -> (r: u64)
        ensures
            r == self@.total_lp_tokens,
    {
        self.total_lp_tokens
    }

    /// The swap fee, in basis points.
    pub fn fee_basis_points(&self) -> (r: u16)
        ensures
            r == self@.fee_basis_points,
    {
        self.fee_basis_points
    }

    /// The scale that ratios and prices are held to.
    pub fn precision(&self) -> (r: u32)
        ensures
            r == self@.precision,
    {
        self.precision
    }

    /// The pool's invariant K.
    pub fn get_invariant(&self) -> (r: Result<u128, CurveError>)
        ensures
            self@.balance_x == 0 || self@.balance_y == 0 ==> r == Err::<u128, CurveError>(
                CurveError::ZeroBalance,
            ),
            self@.balance_x != 0 && self@.balance_y != 0 ==> r is Ok && r->Ok_0 == invariant_of(
                self@.balance_x as int,
                self@.balance_y as int,
            ),
    {
        Self::calculate_invariant(self.balance_x, self.balance_y)
    }

    /// The price of X in units of Y, scaled by the pool's precision.
    pub fn get_spot_price_x(&self) -> (r: Result<SpotPrice, CurveError>)
        ensures
            r == spot_price_spec(self@.balance_x, self@.balance_y, self@.precision),
    {
        Self::calculate_spot_price_x(self.balance_x, self.balance_y, self.precision)
    }

    /// The price of Y in units of X, scaled by the pool's precision.
    pub fn get_spot_price_y(&self) -> (r: Result<SpotPrice, CurveError>)
        ensures
            r == spot_price_spec(self@.balance_y, self@.balance_x, self@.precision),
    {
        Self::calculate_spot_price_y(self.balance_x, self.balance_y, self.precision)
    }

    /// Swaps `amount` of `token_pair` into the pool, failing where the payout
    /// falls short of `min_withdrawn`.
    pub fn swap(&mut self, token_pair: LiquidityPair, amount: u64, min_withdrawn: u64) -> (r:
        Result<SwapResult, CurveError>)
        requires
            old(self).wf(),
        ensures
            final(self).wf(),
            outcome_matches(
                swap_spec(old(self)@, token_pair, amount, min_withdrawn),
                old(self)@,
                final(self)@,
                r,
            ),
    {
        if amount == 0 || self.balance_x == 0 || self.balance_y == 0 {
            return Err(CurveError::ZeroBalance);
        }
        let effective = effective_amount(amount, self.fee_basis_points);
        let (in_bal, out_bal) = match token_pair {
            LiquidityPair::TokenX => (self.balance_x, self.balance_y),
            LiquidityPair::TokenY => (self.balance_y, self.balance_x),
        };
        let new_in = match in_bal.checked_add(effective) {
            Some(v) => v,
            None => return Err(CurveError::Overflow),
        };
        let new_out = match Self::calculate_new_x_after_y_swap(out_bal, in_bal, effective) {
            Ok(v) => v,
            Err(e) => return Err(e),
        };
        let withdrawn = match Self::calculate_x_difference_from_y_swap(out_bal, in_bal, effective) {
            Ok(v) => v,
            Err(e) => return Err(e),
        };
        if withdrawn < min_withdrawn {
            return Err(CurveError::SlippageLimitExceeded);
        }
        if new_out == 0 {
            return Err(CurveError::ZeroBalance);
        }
        let fee = match amount.checked_sub(effective) {
            Some(v) => v,
            None => return Err(CurveError::Underflow),
        };
        match token_pair {
            LiquidityPair::TokenX => {
                self.balance_x = new_in;
                self.balance_y = new_out;
            },
            LiquidityPair::TokenY => {
                self.balance_x = new_out;
                self.balance_y = new_in;
            },
        }
        Ok(SwapResult { deposited: amount, withdrawn, fee })
    }

    /// Swaps `amount` of `token_pair` into the pool whatever it pays out.
    pub fn swap_unsafe(&mut self, token_pair: LiquidityPair, amount: u64) -> (r: Result<
        SwapResult,
        CurveError,
    >)
        requires
            old(self).wf(),
        ensures
            final(self).wf(),
            outcome_matches(swap_spec(old(self)@, token_pair, amount, 0), old(self)@, final(self)@, r),
    {
        self.swap(token_pair, amount, 0)
    }

    fn apply_deposit(&mut self, amount_x: u64, amount_y: u64, lp_tokens_to_mint: u64) -> (r: Result<
        DepositLiquidityResult,
        CurveError,
    >)
        requires
            old(self).wf(),
        ensures
            final(self).wf(),
            outcome_matches(
                apply_deposit_spec(old(self)@, amount_x, amount_y, lp_tokens_to_mint),
                old(self)@,
                final(self)@,
                r,
            ),
    {
        let new_x = match self.balance_x.checked_add(amount_x) {
            Some(v) => v,
            None => return Err(CurveError::Overflow),
        };
        let new_y = match self.balance_y.checked_add(amount_y) {
            Some(v) => v,
            None => return Err(CurveError::Overflow),
        };
        let new_total = match self.total_lp_tokens.checked_add(lp_tokens_to_mint) {
            Some(v) => v,
            None => return Err(CurveError::Overflow),
        };
        self.balance_x = new_x;
        self.balance_y = new_y;
        self.total_lp_tokens = new_total;
        Ok(
            DepositLiquidityResult {
                deposited_x: amount_x,
                deposited_y: amount_y,
                minted_lp_tokens: lp_tokens_to_mint,
            },
        )
    }

    fn apply_withdraw(&mut self, amount_x: u64, amount_y: u64, lp_tokens_to_burn: u64) -> (r:
        Result<WithdrawLiquidityResult, CurveError>)
        requires
            old(self).wf(),
        ensures
            final(self).wf(),
            outcome_matches(
                apply_withdraw_spec(old(self)@, amount_x, amount_y, lp_tokens_to_burn),
                old(self)@,
                final(self)@,
                r,
            ),
    {
        if amount_x > self.balance_x || amount_y > self.balance_y {
            return Err(CurveError::InsufficientBalance);
        }
        let new_total = match self.total_lp_tokens.checked_sub(lp_tokens_to_burn) {
            Some(v) => v,
            None => return Err(CurveError::Underflow),
        };
        if amount_x == self.balance_x || amount_y == self.balance_y || new_total == 0 {
            return Err(CurveError::ZeroBalance);
        }
        self.balance_x = self.balance_x - amount_x;
        self.balance_y = self.balance_y - amount_y;
        self.total_lp_tokens = new_total;
        Ok(
            WithdrawLiquidityResult {
                withdrawn_x: amount_x,
                withdrawn_y: amount_y,
                burned_lp_tokens: lp_tokens_to_burn,
            },
        )
    }

    /// Takes in exactly `amount_x` and `amount_y` and mints `lp_tokens_to_mint`,
    /// with no check of the pool's ratio.
    pub fn deposit_liquidity_unsafe(
        &mut self,
        amount_x: u64,
        amount_y: u64,
        lp_tokens_to_mint: u64,
    ) -> (r: Result<DepositLiquidityResult, CurveError>)
        requires
            old(self).wf(),
        ensures
            final(self).wf(),
            outcome_matches(
                deposit_unsafe_spec(old(self)@, amount_x, amount_y, lp_tokens_to_mint),
                old(self)@,
                final(self)@,
                r,
            ),
    {
        if amount_x == 0 || amount_y == 0 || lp_tokens_to_mint == 0 {
            return Err(CurveError::ZeroBalance);
        }
        self.apply_deposit(amount_x, amount_y, lp_tokens_to_mint)
    }

    /// Pays out exactly `amount_x` and `amount_y` and burns `lp_tokens_to_burn`,
    /// with no check of the pool's ratio.
    pub fn withdraw_liquidity_unsafe(
        &mut self,
        amount_x: u64,
        amount_y: u64,
        lp_tokens_to_burn: u64,
    ) -> (r: Result<WithdrawLiquidityResult, CurveError>)
        requires
            old(self).wf(),
        ensures
            final(self).wf(),
            outcome_matches(
                withdraw_unsafe_spec(old(self)@, amount_x, amount_y, lp_tokens_to_burn),
                old(self)@,
                final(self)@,
                r,
            ),
    {
        if amount_x == 0 || amount_y == 0 || lp_tokens_to_burn == 0 {
            return Err(CurveError::ZeroBalance);
        }
        self.apply_withdraw(amount_x, amount_y, lp_tokens_to_burn)
    }

    /// Mints `lp_tokens_to_mint` shares for the proportional amounts of X and Y,
    /// failing where either exceeds its bound.
    pub fn deposit_liquidity(&mut self, lp_tokens_to_mint: u64, max_x: u64, max_y: u64) -> (r:
        Result<DepositLiquidityResult, CurveError>)
        requires
            old(self).wf(),
        ensures
            final(self).wf(),
            outcome_matches(
                deposit_spec(old(self)@, lp_tokens_to_mint, max_x, max_y),
                old(self)@,
                final(self)@,
                r,
            ),
    {
        if lp_tokens_to_mint == 0 || self.balance_x == 0 || self.balance_y == 0 {
            return Err(CurveError::ZeroBalance);
        }
        let amounts = match Self::calculate_deposit_amounts(
            self.balance_x,
            self.balance_y,
            self.total_lp_tokens,
            lp_tokens_to_mint,
            self.precision,
        ) {
            Ok(a) => a,
            Err(e) => return Err(e),
        };
        if amounts.token_x > max_x || amounts.token_y > max_y {
            return Err(CurveError::SlippageLimitExceeded);
        }
        self.apply_deposit(amounts.token_x, amounts.token_y, lp_tokens_to_mint)
    }

    /// Burns `lp_tokens_to_burn` shares for the proportional amounts of X and Y,
    /// failing where either falls short of its bound.
    pub fn withdraw_liquidity(&mut self, lp_tokens_to_burn: u64, min_x: u64, min_y: u64) -> (r:
        Result<WithdrawLiquidityResult, CurveError>)
        requires
            old(self).wf(),
        ensures
            final(self).wf(),
            outcome_matches(
                withdraw_spec(old(self)@, lp_tokens_to_burn, min_x, min_y),
                old(self)@,
                final(self)@,
                r,
            ),
    {
        if lp_tokens_to_burn == 0 || self.balance_x == 0 || self.balance_y == 0 {
            return Err(CurveError::ZeroBalance);
        }
        let amounts = match Self::calculate_withdraw_amounts(
            self.balance_x,
            self.balance_y,
            self.total_lp_tokens,
            lp_tokens_to_burn,
            self.precision,
        ) {
            Ok(a) => a,
            Err(e) => return Err(e),
        };
        if amounts.token_x < min_x || amounts.token_y < min_y {
            return Err(CurveError::SlippageLimitExceeded);
        }
        self.apply_withdraw(amounts.token_x, amounts.token_y, lp_tokens_to_burn)
    }
}

} // verus!
