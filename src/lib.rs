//! A constant-product automated market maker: pool arithmetic over integer
//! reserves, with fee and slippage rules, proved free of overflow.

pub mod arith;
pub mod curve;
pub mod laws;
pub mod program;

pub use curve::{
    ConstantProduct, CurveError, DepositLiquidityResult, LiquidityPair, SpotPrice, SwapResult,
    PoolState, TokenAmounts, WithdrawLiquidityResult,
};
