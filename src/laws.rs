//! Laws that relate the pool's operations to each other.

use vstd::prelude::*;

use crate::arith::{
    lemma_div_bounds, lemma_div_larger, lemma_mul_le, lemma_scale_ge, lemma_scale_le,
    lemma_scale_round_trip,
};
use crate::curve::{
    deposit_ratio, deposit_spec, deposit_unsafe_spec, effective_input, in_out, invariant_of,
    payout, swap_spec, u64_max, withdraw_ratio, withdraw_spec, withdraw_unsafe_spec, CurveError,
    DepositLiquidityResult, LiquidityPair, PoolState, SwapResult, WithdrawLiquidityResult,
};

verus! {

/// The pool with its two reserves exchanged.
pub open spec fn mirror(s: PoolState) -> PoolState {
    PoolState {
        balance_x: s.balance_y,
        balance_y: s.balance_x,
        total_lp_tokens: s.total_lp_tokens,
        fee_basis_points: s.fee_basis_points,
        precision: s.precision,
    }
}

/// The reserve on the input side once a swap of `amount` has added its
/// fee-deducted part.
pub open spec fn grown_input(s: PoolState, pair: LiquidityPair, amount: u64) -> int {
    in_out(s, pair).0 + effective_input(amount as int, s.fee_basis_points as int)
}

/// A successful swap never raises the invariant K: the new K is the old K
/// less its remainder modulo the grown input reserve.
pub proof fn lemma_swap_invariant_never_grows(
    s: PoolState,
    pair: LiquidityPair,
    amount: u64,
    min_out: u64,
)
    requires
        s.fee_basis_points <= 10000,
        swap_spec(s, pair, amount, min_out) is Ok,
    ensures
        ({
            let next = swap_spec(s, pair, amount, min_out)->Ok_0.0;
            let k = invariant_of(s.balance_x as int, s.balance_y as int);
            let g = grown_input(s, pair, amount);
            &&& invariant_of(next.balance_x as int, next.balance_y as int) == k - k % g
            &&& invariant_of(next.balance_x as int, next.balance_y as int) <= k
        }),
{
    let x = s.balance_x as int;
    let y = s.balance_y as int;
    let in_bal = in_out(s, pair).0;
    let out_bal = in_out(s, pair).1;
    let e = effective_input(amount as int, s.fee_basis_points as int);
    lemma_mul_le(amount as int, 10000 - s.fee_basis_points, u64_max(), 10000);
    lemma_div_bounds(amount as int * (10000 - s.fee_basis_points), 10000);
    let g = in_bal + e;
    let k = x * y;
    assert(out_bal * in_bal == k) by (nonlinear_arith)
        requires
            (in_bal == x && out_bal == y) || (in_bal == y && out_bal == x),
            k == x * y,
    ;
    lemma_div_larger(out_bal, in_bal, g);
    lemma_mul_le(out_bal, in_bal, out_bal, in_bal);
    lemma_div_bounds(k, g);
    let q = k / g;
    assert(q * g == g * q) by (nonlinear_arith);
}

/// A successful swap keeps the invariant K exactly, with or without a fee,
/// wherever the grown input reserve divides K (as it must for K to be kept
/// once the paid-out reserve is rounded down to an integer).
pub proof fn lemma_swap_keeps_invariant(
    s: PoolState,
    pair: LiquidityPair,
    amount: u64,
    min_out: u64,
)
    requires
        s.fee_basis_points <= 10000,
        swap_spec(s, pair, amount, min_out) is Ok,
        invariant_of(s.balance_x as int, s.balance_y as int) % grown_input(s, pair, amount) == 0,
    ensures
        ({
            let next = swap_spec(s, pair, amount, min_out)->Ok_0.0;
            invariant_of(next.balance_x as int, next.balance_y as int) == invariant_of(
                s.balance_x as int,
                s.balance_y as int,
            )
        }),
{
    lemma_swap_invariant_never_grows(s, pair, amount, min_out);
}

/// Swapping X into reserves (x, y) pays out, charges and fails exactly as
/// swapping Y into the mirrored reserves (y, x), and leaves mirrored reserves.
pub proof fn lemma_swap_symmetry(s: PoolState, amount: u64, min_out: u64)
    ensures
        match swap_spec(s, LiquidityPair::TokenX, amount, min_out) {
            Ok(step) => swap_spec(mirror(s), LiquidityPair::TokenY, amount, min_out) == Ok::<
                (PoolState, SwapResult),
                CurveError,
            >((mirror(step.0), step.1)),
            Err(e) => swap_spec(mirror(s), LiquidityPair::TokenY, amount, min_out) == Err::<
                (PoolState, SwapResult),
                CurveError,
            >(e),
        },
{
}

/// A swap whose payout falls short of the caller's minimum fails with
/// `SlippageLimitExceeded`, once the amount and reserves are non-zero and the
/// input reserve has room for the amount.
pub proof fn lemma_swap_slippage_gate(
    s: PoolState,
    pair: LiquidityPair,
    amount: u64,
    min_out: u64,
)
    requires
        amount > 0,
        s.balance_x > 0,
        s.balance_y > 0,
        grown_input(s, pair, amount) <= u64_max(),
        payout(
            in_out(s, pair).0,
            in_out(s, pair).1,
            effective_input(amount as int, s.fee_basis_points as int),
        ) < min_out,
    ensures
        swap_spec(s, pair, amount, min_out) == Err::<(PoolState, SwapResult), CurveError>(
            CurveError::SlippageLimitExceeded,
        ),
{
}

/// Every operation given a zero amount or share count fails with
/// `ZeroBalance` before it computes anything.
pub proof fn lemma_zero_amount_rejected(
    s: PoolState,
    pair: LiquidityPair,
    a: u64,
    b: u64,
    c: u64,
)
    ensures
        swap_spec(s, pair, 0, a) == Err::<(PoolState, SwapResult), CurveError>(
            CurveError::ZeroBalance,
        ),
        deposit_spec(s, 0, a, b) == Err::<(PoolState, DepositLiquidityResult), CurveError>(
            CurveError::ZeroBalance,
        ),
        withdraw_spec(s, 0, a, b) == Err::<(PoolState, WithdrawLiquidityResult), CurveError>(
            CurveError::ZeroBalance,
        ),
        a == 0 || b == 0 || c == 0 ==> deposit_unsafe_spec(s, a, b, c) == Err::<
            (PoolState, DepositLiquidityResult),
            CurveError,
        >(CurveError::ZeroBalance),
        a == 0 || b == 0 || c == 0 ==> withdraw_unsafe_spec(s, a, b, c) == Err::<
            (PoolState, WithdrawLiquidityResult),
            CurveError,
        >(CurveError::ZeroBalance),
{
}

/// Depositing for `n` shares and then burning the same `n` shares restores the
/// share count and gives back each reserve up to rounding: it never ends above
/// where it began, and ends short by less than `(x + x1) / precision + 2`,
/// where `x1` is the reserve between the two steps.
pub proof fn lemma_deposit_withdraw_round_trip(
    s: PoolState,
    n: u64,
    max_x: u64,
    max_y: u64,
    min_x: u64,
    min_y: u64,
)
    requires
        s.precision > 0,
        deposit_spec(s, n, max_x, max_y) is Ok,
        withdraw_spec(deposit_spec(s, n, max_x, max_y)->Ok_0.0, n, min_x, min_y) is Ok,
    ensures
        ({
            let s1 = deposit_spec(s, n, max_x, max_y)->Ok_0.0;
            let s2 = withdraw_spec(s1, n, min_x, min_y)->Ok_0.0;
            &&& s2.total_lp_tokens == s.total_lp_tokens
            &&& s2.fee_basis_points == s.fee_basis_points
            &&& s2.precision == s.precision
            &&& s2.balance_x <= s.balance_x
            &&& s2.balance_y <= s.balance_y
            &&& (s.balance_x - s2.balance_x) * s.precision < s.balance_x + s1.balance_x + 2
                * s.precision
            &&& (s.balance_y - s2.balance_y) * s.precision < s.balance_y + s1.balance_y + 2
                * s.precision
        }),
{
    let t = s.total_lp_tokens as int;
    let p = s.precision as int;
    let u = t + n;
    let s1 = deposit_spec(s, n, max_x, max_y)->Ok_0.0;
    let s2 = withdraw_spec(s1, n, min_x, min_y)->Ok_0.0;
    let r = deposit_ratio(t, n as int, p);
    let r2 = withdraw_ratio(u, n as int, p);
    lemma_scale_ge(p, u, t);
    lemma_scale_ge(s.balance_x as int, r, p);
    lemma_scale_ge(s.balance_y as int, r, p);
    assert(s1.balance_x == s.balance_x * r / p);
    assert(s1.balance_y == s.balance_y * r / p);
    assert(s1.total_lp_tokens == u);
    assert(r2 == t * p / u);
    lemma_mul_le(t, p, u, p);
    lemma_scale_le(p, t, u);
    lemma_scale_le(s1.balance_x as int, r2, p);
    lemma_scale_le(s1.balance_y as int, r2, p);
    assert(s2.balance_x == s1.balance_x * r2 / p);
    assert(s2.balance_y == s1.balance_y * r2 / p);
    lemma_scale_round_trip(s.balance_x as int, t, n as int, p);
    lemma_scale_round_trip(s.balance_y as int, t, n as int, p);
}

} // verus!
