//! The pool's instructions, less their account plumbing: each takes the values
//! that the accounts hold and decides what moves, leaving the transfers, mints
//! and burns to the caller.

use vstd::prelude::*;

use crate::curve::{
    deposit_amounts_spec, init_spec, swap_spec, withdraw_amounts_spec, ConstantProduct,
    CurveError, DepositLiquidityResult, LiquidityPair, PoolState, SwapResult, TokenAmounts,
};

verus! {

/// A 32-byte account address.
pub type Pubkey = [u8; 32];

/// The precision the instructions compute ratios with.
pub const POOL_PRECISION: u32 = 1_000_000;

/// The number of decimal digits in `POOL_PRECISION`.
pub const POOL_PRECISION_DIGITS: u8 = 6;

/// Why an instruction was refused.
#[derive(Debug, Clone, Copy, PartialEq, Eq, Structural)]
pub enum AmmError {
    InvalidFee,
    PoolLocked,
    OfferExpired,
    ZeroBalance,
    SlippageExceeded,
    InvalidAuthority,
    NoAuthoritySet,
    Curve(CurveError),
}

/// The stored settings of one pool.
#[derive(Debug, Clone, Copy)]
pub struct Config {
    pub seed: u64,
    pub authority: Option<Pubkey>,
    pub x_mint: Pubkey,
    pub y_mint: Pubkey,
    pub fee: u16,
    pub locked: bool,
    pub auth_bump: u8,
    pub config_bump: u8,
    pub lp_bump: u8,
}

impl Config {
    /// Fills in a fresh configuration, unlocked.
    pub fn init(
        &mut self,
        seed: u64,
        authority: Option<Pubkey>,
        x_mint: Pubkey,
        y_mint: Pubkey,
        fee: u16,
        auth_bump: u8,
        config_bump: u8,
        lp_bump: u8,
    )
        ensures
            final(self).seed == seed,
            final(self).authority == authority,
            final(self).x_mint == x_mint,
            final(self).y_mint == y_mint,
            final(self).fee == fee,
            !final(self).locked,
            final(self).auth_bump == auth_bump,
            final(self).config_bump == config_bump,
            final(self).lp_bump == lp_bump,
    {
        self.seed = seed;
        self.authority = authority;
        self.x_mint = x_mint;
        self.y_mint = y_mint;
        self.fee = fee;
        self.locked = false;
        self.auth_bump = auth_bump;
        self.config_bump = config_bump;
        self.lp_bump = lp_bump;
    }
}

/// Fails with `ZeroBalance` where any of `values` is zero.
pub fn assert_non_zero(values: &[u64]) -> (r: Result<(), AmmError>)
    ensures
        r is Err <==> exists|i: int| 0 <= i < values@.len() && values@[i] == 0,
        r is Err ==> r == Err::<(), AmmError>(AmmError::ZeroBalance),
{
    let mut i: usize = 0;
    while i < values.len()
        invariant
            i <= values@.len(),
            forall|j: int| 0 <= j < i ==> values@[j] != 0,
        decreases values@.len() - i,
    {
        if values[i] == 0 {
            return Err(AmmError::ZeroBalance);
        }
        i = i + 1;
    }
    Ok(())
}

/// Fails with `PoolLocked` where the pool is locked.
pub fn assert_not_locked(locked: bool) -> (r: Result<(), AmmError>)
    ensures
        r == (if locked {
            Err::<(), AmmError>(AmmError::PoolLocked)
        } else {
            Ok(())
        }),
{
    if locked {
        Err(AmmError::PoolLocked)
    } else {
        Ok(())
    }
}

/// Fails with `OfferExpired` where `now` is past `expiration`.
pub fn assert_not_expired(now: i64, expiration: i64) -> (r: Result<(), AmmError>)
    ensures
        r == (if now > expiration {
            Err::<(), AmmError>(AmmError::OfferExpired)
        } else {
            Ok(())
        }),
{
    if now > expiration {
        Err(AmmError::OfferExpired)
    } else {
        Ok(())
    }
}

/// Whether two addresses are the same.
pub fn same_key(a: &Pubkey, b: &Pubkey) -> (r: bool)
    ensures
        r == (a@ == b@),
{
    let mut i: usize = 0;
    while i < 32
        invariant
            i <= 32,
            a@.len() == 32,
            b@.len() == 32,
            forall|j: int| 0 <= j < i ==> a@[j] == b@[j],
        decreases 32 - i,
    {
        if a[i] != b[i] {
            return false;
        }
        i = i + 1;
    }
    assert(a@ =~= b@);
    true
}

/// Fails unless the pool has an authority and `user` is it.
pub fn has_update_authority(config: &Config, user: &Pubkey) -> (r: Result<(), AmmError>)
    ensures
        r == (match config.authority {
            None => Err::<(), AmmError>(AmmError::NoAuthoritySet),
            Some(a) => if a@ == user@ {
                Ok(())
            } else {
                Err(AmmError::InvalidAuthority)
            },
        }),
{
    match &config.authority {
        None => Err(AmmError::NoAuthoritySet),
        Some(a) => if same_key(a, user) {
            Ok(())
        } else {
            Err(AmmError::InvalidAuthority)
        },
    }
}

/// Sets up a new pool's configuration; a fee above a whole is refused.
pub fn initialize(
    config: &mut Config,
    seed: u64,
    fee: u16,
    authority: Option<Pubkey>,
    x_mint: Pubkey,
    y_mint: Pubkey,
    auth_bump: u8,
    config_bump: u8,
    lp_bump: u8,
) -> (r: Result<(), AmmError>)
    ensures
        fee > 10000 ==> r == Err::<(), AmmError>(AmmError::InvalidFee) && *final(config) == *old(
            config,
        ),
        fee <= 10000 ==> r == Ok::<(), AmmError>(()) && final(config).seed == seed
            && final(config).authority == authority && final(config).x_mint == x_mint
            && final(config).y_mint == y_mint && final(config).fee == fee && !final(config).locked
            && final(config).auth_bump == auth_bump && final(config).config_bump == config_bump
            && final(config).lp_bump == lp_bump,
{
    if fee > 10000 {
        return Err(AmmError::InvalidFee);
    }
    config.init(seed, authority, x_mint, y_mint, fee, auth_bump, config_bump, lp_bump);
    Ok(())
}

/// Locks the pool, where `user` is its authority.
pub fn lock(config: &mut Config, user: &Pubkey) -> (r: Result<(), AmmError>)
    ensures
        r == has_update_authority_spec(*old(config), *user),
        r is Ok ==> *final(config) == (Config { locked: true, ..*old(config) }),
        r is Err ==> *final(config) == *old(config),
{
    match has_update_authority(config, user) {
        Ok(()) => {},
        Err(e) => return Err(e),
    }
    config.locked = true;
    Ok(())
}

/// Unlocks the pool, where `user` is its authority.
pub fn unlock(config: &mut Config, user: &Pubkey) -> (r: Result<(), AmmError>)
    ensures
        r == has_update_authority_spec(*old(config), *user),
        r is Ok ==> *final(config) == (Config { locked: false, ..*old(config) }),
        r is Err ==> *final(config) == *old(config),
{
    match has_update_authority(config, user) {
        Ok(()) => {},
        Err(e) => return Err(e),
    }
    config.locked = false;
    Ok(())
}

/// Whether `user` may change the pool's settings, and if not, why.
pub open spec fn has_update_authority_spec(config: Config, user: Pubkey) -> Result<(), AmmError> {
    match config.authority {
        None => Err(AmmError::NoAuthoritySet),
        Some(a) => if a@ == user@ {
            Ok(())
        } else {
            Err(AmmError::InvalidAuthority)
        },
    }
}

/// The checks every trading instruction makes first: the pool is open and the
/// request has not expired.
pub open spec fn gate_spec(config: Config, now: i64, expiration: i64) -> Result<(), AmmError> {
    if config.locked {
        Err(AmmError::PoolLocked)
    } else if now > expiration {
        Err(AmmError::OfferExpired)
    } else {
        Ok(())
    }
}

/// What a deposit of `amount` shares takes in and mints: into an empty pool
/// the caller's maxima, for as many shares as the larger of them; else the
/// proportional amounts, each within its maximum, for `amount` shares.
pub open spec fn deposit_request_spec(
    config: Config,
    x_vault: u64,
    y_vault: u64,
    lp_supply: u64,
    now: i64,
    amount: u64,
    x_max: u64,
    y_max: u64,
    expiration: i64,
) -> Result<DepositLiquidityResult, AmmError> {
    if gate_spec(config, now, expiration) is Err {
        Err(gate_spec(config, now, expiration)->Err_0)
    } else if amount == 0 || x_max == 0 || y_max == 0 {
        Err(AmmError::ZeroBalance)
    } else if lp_supply == 0 && x_vault == 0 && y_vault == 0 {
        Ok(
            DepositLiquidityResult {
                deposited_x: x_max,
                deposited_y: y_max,
                minted_lp_tokens: if x_max >= y_max {
                    x_max
                } else {
                    y_max
                },
            },
        )
    } else {
        match deposit_amounts_spec(x_vault, y_vault, lp_supply, amount, POOL_PRECISION) {
            Err(e) => Err(AmmError::Curve(e)),
            Ok(a) => if a.token_x <= x_max && a.token_y <= y_max {
                Ok(
                    DepositLiquidityResult {
                        deposited_x: a.token_x,
                        deposited_y: a.token_y,
                        minted_lp_tokens: amount,
                    },
                )
            } else {
                Err(AmmError::SlippageExceeded)
            },
        }
    }
}

/// Decides a deposit of `amount` shares: the amounts of X and Y to take from
/// the depositor and the shares to mint. The caller then moves and mints them.
pub fn deposit(
    config: &Config,
    x_vault: u64,
    y_vault: u64,
    lp_supply: u64,
    now: i64,
    amount: u64,
    x_max: u64,
    y_max: u64,
    expiration: i64,
) -> (r: Result<DepositLiquidityResult, AmmError>)
    ensures
        r == deposit_request_spec(
            *config,
            x_vault,
            y_vault,
            lp_supply,
            now,
            amount,
            x_max,
            y_max,
            expiration,
        ),
{
    match assert_not_locked(config.locked) {
        Ok(()) => {},
        Err(e) => return Err(e),
    }
    match assert_not_expired(now, expiration) {
        Ok(()) => {},
        Err(e) => return Err(e),
    }
    let values = [amount, x_max, y_max];
    match assert_non_zero(&values) {
        Ok(()) => {},
        Err(e) => {
            assert(values@[0] == amount && values@[1] == x_max && values@[2] == y_max);
            return Err(e);
        },
    }
    assert(values@[0] == amount && values@[1] == x_max && values@[2] == y_max);
    if lp_supply == 0 && x_vault == 0 && y_vault == 0 {
        let seed_shares = if x_max >= y_max {
            x_max
        } else {
            y_max
        };
        return Ok(
            DepositLiquidityResult {
                deposited_x: x_max,
                deposited_y: y_max,
                minted_lp_tokens: seed_shares,
            },
        );
    }
    let amounts = match ConstantProduct::calculate_deposit_amounts(
        x_vault,
        y_vault,
        lp_supply,
        amount,
        POOL_PRECISION,
    ) {
        Ok(a) => a,
        Err(e) => return Err(AmmError::Curve(e)),
    };
    if amounts.token_x <= x_max && amounts.token_y <= y_max {
        Ok(
            DepositLiquidityResult {
                deposited_x: amounts.token_x,
                deposited_y: amounts.token_y,
                minted_lp_tokens: amount,
            },
        )
    } else {
        Err(AmmError::SlippageExceeded)
    }
}

/// What burning `amount` shares pays out, each amount at least its minimum.
pub open spec fn withdraw_request_spec(
    config: Config,
    x_vault: u64,
    y_vault: u64,
    lp_supply: u64,
    now: i64,
    amount: u64,
    x_min: u64,
    y_min: u64,
    expiration: i64,
) -> Result<TokenAmounts, AmmError> {
    if gate_spec(config, now, expiration) is Err {
        Err(gate_spec(config, now, expiration)->Err_0)
    } else if amount == 0 {
        Err(AmmError::ZeroBalance)
    } else {
        match withdraw_amounts_spec(x_vault, y_vault, lp_supply, amount, POOL_PRECISION) {
            Err(e) => Err(AmmError::Curve(e)),
            Ok(a) => if x_min <= a.token_x && y_min <= a.token_y {
                Ok(a)
            } else {
                Err(AmmError::SlippageExceeded)
            },
        }
    }
}

/// Decides a withdrawal of `amount` shares: the amounts of X and Y to pay
/// out. The caller then moves them and burns the `amount` shares.
pub fn withdraw(
    config: &Config,
    x_vault: u64,
    y_vault: u64,
    lp_supply: u64,
    now: i64,
    amount: u64,
    x_min: u64,
    y_min: u64,
    expiration: i64,
) -> (r: Result<TokenAmounts, AmmError>)
    ensures
        r == withdraw_request_spec(
            *config,
            x_vault,
            y_vault,
            lp_supply,
            now,
            amount,
            x_min,
            y_min,
            expiration,
        ),
{
    match assert_not_locked(config.locked) {
        Ok(()) => {},
        Err(e) => return Err(e),
    }
    match assert_not_expired(now, expiration) {
        Ok(()) => {},
        Err(e) => return Err(e),
    }
    if amount == 0 {
        return Err(AmmError::ZeroBalance);
    }
    let amounts = match ConstantProduct::calculate_withdraw_amounts(
        x_vault,
        y_vault,
        lp_supply,
        amount,
        POOL_PRECISION,
    ) {
        Ok(a) => a,
        Err(e) => return Err(AmmError::Curve(e)),
    };
    if x_min <= amounts.token_x && y_min <= amounts.token_y {
        Ok(amounts)
    } else {
        Err(AmmError::SlippageExceeded)
    }
}

/// The pool that a swap instruction prices against: the vault balances, the
/// share supply and the configured fee, at the instructions' precision.
pub open spec fn swap_pool_spec(config: Config, x_vault: u64, y_vault: u64, lp_supply: u64) -> Result<
    PoolState,
    CurveError,
> {
    init_spec(x_vault, y_vault, lp_supply, config.fee, Some(POOL_PRECISION_DIGITS))
}

/// What a swap of `amount_in` trades: refused where either side of the trade
/// comes to zero.
pub open spec fn swap_request_spec(
    config: Config,
    x_vault: u64,
    y_vault: u64,
    lp_supply: u64,
    now: i64,
    amount_in: u64,
    min_amount_out: u64,
    is_x_to_y: bool,
    expiration: i64,
) -> Result<SwapResult, AmmError> {
    let pair = if is_x_to_y {
        LiquidityPair::TokenX
    } else {
        LiquidityPair::TokenY
    };
    if amount_in == 0 {
        Err(AmmError::ZeroBalance)
    } else if gate_spec(config, now, expiration) is Err {
        Err(gate_spec(config, now, expiration)->Err_0)
    } else {
        match swap_pool_spec(config, x_vault, y_vault, lp_supply) {
            Err(e) => Err(AmmError::Curve(e)),
            Ok(s) => match swap_spec(s, pair, amount_in, min_amount_out) {
                Err(e) => Err(AmmError::Curve(e)),
                Ok(step) => if step.1.deposited == 0 || step.1.withdrawn == 0 {
                    Err(AmmError::ZeroBalance)
                } else {
                    Ok(step.1)
                },
            },
        }
    }
}

/// Decides a swap of `amount_in`: what the trader pays in and receives. The
/// caller then moves both amounts.
pub fn swap(
    config: &Config,
    x_vault: u64,
    y_vault: u64,
    lp_supply: u64,
    now: i64,
    amount_in: u64,
    min_amount_out: u64,
    is_x_to_y: bool,
    expiration: i64,
) -> (r: Result<SwapResult, AmmError>)
    ensures
        r == swap_request_spec(
            *config,
            x_vault,
            y_vault,
            lp_supply,
            now,
            amount_in,
            min_amount_out,
            is_x_to_y,
            expiration,
        ),
{
    if amount_in == 0 {
        return Err(AmmError::ZeroBalance);
    }
    match assert_not_locked(config.locked) {
        Ok(()) => {},
        Err(e) => return Err(e),
    }
    match assert_not_expired(now, expiration) {
        Ok(()) => {},
        Err(e) => return Err(e),
    }
    let mut curve = match ConstantProduct::init(
        x_vault,
        y_vault,
        lp_supply,
        config.fee,
        Some(POOL_PRECISION_DIGITS),
    ) {
        Ok(c) => c,
        Err(e) => return Err(AmmError::Curve(e)),
    };
    let pair = if is_x_to_y {
        LiquidityPair::TokenX
    } else {
        LiquidityPair::TokenY
    };
    let result = match curve.swap(pair, amount_in, min_amount_out) {
        Ok(o) => o,
        Err(e) => return Err(AmmError::Curve(e)),
    };
    if result.deposited == 0 || result.withdrawn == 0 {
        return Err(AmmError::ZeroBalance);
    }
    Ok(result)
}

} // verus!
