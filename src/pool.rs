use vstd::prelude::*;

use crate::address::Address;
use crate::errors::AmmError;
use crate::math::{floor_sqrt, integer_sqrt};

verus! {

/// Basis points in one whole: the largest fee rate a pool may charge.
pub const FEE_DENOMINATOR: u64 = 10000;

/// A pool for one pair of distinct mints. The reserves live in the two vaults
/// and the share count in the LP mint; the pool itself holds identities and
/// the fee rate.
#[derive(Clone, Copy, Debug)]
pub struct Pool {
    pub authority: Address,
    pub token_a_mint: Address,
    pub token_b_mint: Address,
    pub token_a_vault: Address,
    pub token_b_vault: Address,
    pub lp_mint: Address,
    pub fee_rate: u16,
    pub bump: u8,
    pub lp_mint_bump: u8,
}

impl Pool {
    /// A pool as `initialize_pool` creates it: a fee of at most one whole and
    /// two different mints.
    pub open spec fn wf(&self) -> bool {
        &&& self.fee_rate <= FEE_DENOMINATOR
        &&& self.token_a_mint@ != self.token_b_mint@
    }
}

/// The identities that creating a pool binds together.
#[derive(Clone, Copy, Debug)]
pub struct InitializePool {
    pub authority: Address,
    pub token_a_mint: Address,
    pub token_b_mint: Address,
    pub token_a_vault: Address,
    pub token_b_vault: Address,
    pub lp_mint: Address,
    pub pool_bump: u8,
    pub lp_mint_bump: u8,
}

/// Balances read before a deposit: the two vaults and the LP supply.
#[derive(Clone, Copy, Debug)]
pub struct AddLiquidity {
    pub reserve_a: u64,
    pub reserve_b: u64,
    pub lp_supply: u64,
}

/// Balances read before a redemption: the two vaults and the LP supply.
#[derive(Clone, Copy, Debug)]
pub struct RemoveLiquidity {
    pub reserve_a: u64,
    pub reserve_b: u64,
    pub lp_supply: u64,
}

/// The pool and its two vault balances, read before a trade.
#[derive(Clone, Copy, Debug)]
pub struct Swap {
    pub pool: Pool,
    pub reserve_a: u64,
    pub reserve_b: u64,
}

/// What a redemption pays out of each vault.
#[derive(Clone, Copy, Debug, PartialEq, Eq, Structural)]
pub struct Withdrawal {
    pub amount_a: u64,
    pub amount_b: u64,
}

pub open spec fn min_int(x: int, y: int) -> int {
    if x <= y {
        x
    } else {
        y
    }
}

/// The pool record that `initialize_pool` writes.
pub open spec fn new_pool(ctx: InitializePool, fee_rate: u16) -> Pool {
    Pool {
        authority: ctx.authority,
        token_a_mint: ctx.token_a_mint,
        token_b_mint: ctx.token_b_mint,
        token_a_vault: ctx.token_a_vault,
        token_b_vault: ctx.token_b_vault,
        lp_mint: ctx.lp_mint,
        fee_rate,
        bump: ctx.pool_bump,
        lp_mint_bump: ctx.lp_mint_bump,
    }
}

pub open spec fn initialize_pool_result(ctx: InitializePool, fee_rate: u16) -> Result<Pool, AmmError> {
    if fee_rate > FEE_DENOMINATOR {
        Err(AmmError::InvalidFeeRate)
    } else if ctx.token_a_mint@ == ctx.token_b_mint@ {
        Err(AmmError::IdenticalMints)
    } else {
        Ok(new_pool(ctx, fee_rate))
    }
}

/// Shares owed for a deposit, or `None` where the computation overflows or
/// divides by zero. The first deposit gets the geometric mean of the two
/// amounts; later ones get the smaller of the two proportional shares.
pub open spec fn deposit_shares(ctx: AddLiquidity, amount_a: int, amount_b: int) -> Option<int> {
    if ctx.reserve_a == 0 && ctx.reserve_b == 0 {
        Some(floor_sqrt(amount_a * amount_b))
    } else if ctx.reserve_a == 0 || ctx.reserve_b == 0 {
        None
    } else {
        let shares = min_int(
            amount_a * ctx.lp_supply / ctx.reserve_a as int,
            amount_b * ctx.lp_supply / ctx.reserve_b as int,
        );
        if shares > u64::MAX {
            None
        } else {
            Some(shares)
        }
    }
}

/// The LP shares minted by a deposit, or why it is refused.
pub open spec fn add_liquidity_result(
    ctx: AddLiquidity,
    amount_a: u64,
    amount_b: u64,
    min_lp_tokens: u64,
) -> Result<u64, AmmError> {
    if amount_a == 0 || amount_b == 0 {
        Err(AmmError::InvalidAmount)
    } else {
        match deposit_shares(ctx, amount_a as int, amount_b as int) {
            None => Err(AmmError::MathOverflow),
            Some(shares) => if shares < min_lp_tokens {
                Err(AmmError::SlippageExceeded)
            } else if shares == 0 {
                Err(AmmError::InvalidAmount)
            } else {
                Ok(shares as u64)
            },
        }
    }
}

/// The part of `reserve` that `lp_tokens` of `lp_supply` shares redeem.
pub open spec fn redeemed(lp_tokens: int, reserve: int, lp_supply: int) -> int {
    lp_tokens * reserve / lp_supply
}

/// The payout of a redemption, or why it is refused.
pub open spec fn remove_liquidity_result(
    ctx: RemoveLiquidity,
    lp_tokens: u64,
    min_amount_a: u64,
    min_amount_b: u64,
) -> Result<Withdrawal, AmmError> {
    if lp_tokens == 0 {
        Err(AmmError::InvalidAmount)
    } else if ctx.lp_supply == 0 {
        Err(AmmError::InsufficientLiquidity)
    } else if lp_tokens > ctx.lp_supply {
        Err(AmmError::InvalidAmount)
    } else {
        let amount_a = redeemed(lp_tokens as int, ctx.reserve_a as int, ctx.lp_supply as int);
        let amount_b = redeemed(lp_tokens as int, ctx.reserve_b as int, ctx.lp_supply as int);
        if amount_a < min_amount_a || amount_b < min_amount_b {
            Err(AmmError::SlippageExceeded)
        } else if amount_a == 0 || amount_b == 0 {
            Err(AmmError::InvalidAmount)
        } else {
            Ok(Withdrawal { amount_a: amount_a as u64, amount_b: amount_b as u64 })
        }
    }
}

/// The input left to trade once the fee (in basis points) is taken.
pub open spec fn input_after_fee(amount_in: int, fee_rate: int) -> int {
    amount_in * (FEE_DENOMINATOR - fee_rate) / FEE_DENOMINATOR as int
}

/// Constant-product output for an effective input against the two reserves.
pub open spec fn swap_output(effective_in: int, reserve_in: int, reserve_out: int) -> int {
    effective_in * reserve_out / (reserve_in + effective_in)
}

/// `(reserve_in, reserve_out)` for a trade in the given direction.
pub open spec fn trade_reserves(ctx: Swap, a_to_b: bool) -> (u64, u64) {
    if a_to_b {
        (ctx.reserve_a, ctx.reserve_b)
    } else {
        (ctx.reserve_b, ctx.reserve_a)
    }
}

/// The output of a trade, or why it is refused.
pub open spec fn swap_result(ctx: Swap, amount_in: u64, min_amount_out: u64, a_to_b: bool) -> Result<u64, AmmError> {
    let (reserve_in, reserve_out) = trade_reserves(ctx, a_to_b);
    if ctx.pool.fee_rate > FEE_DENOMINATOR {
        Err(AmmError::MathOverflow)
    } else {
        let effective_in = input_after_fee(amount_in as int, ctx.pool.fee_rate as int);
        if reserve_in + effective_in > u64::MAX || reserve_in + effective_in == 0 {
            Err(AmmError::MathOverflow)
        } else {
            let amount_out = swap_output(effective_in, reserve_in as int, reserve_out as int);
            if amount_out < min_amount_out {
                Err(AmmError::SlippageExceeded)
            } else {
                Ok(amount_out as u64)
            }
        }
    }
}

/// The full product of two 64-bit values.
fn wide_mul(x: u64, y: u64) -> (r: u128)
    ensures
        r == x * y,
{
    assert(x * y <= u128::MAX) by (nonlinear_arith)
        requires
            x <= u64::MAX,
            y <= u64::MAX,
    ;
    (x as u128) * (y as u128)
}

proof fn lemma_part_le_whole(part: int, whole: int, total: int)
    requires
        0 <= part <= total,
        0 <= whole,
        0 < total,
    ensures
        0 <= part * whole / total <= whole,
{
    assert(0 <= part * whole <= total * whole) by (nonlinear_arith)
        requires
            0 <= part <= total,
            0 <= whole,
    ;
    vstd::arithmetic::div_mod::lemma_div_is_ordered(part * whole, total * whole, total);
    vstd::arithmetic::div_mod::lemma_div_multiples_vanish(whole, total);
    vstd::arithmetic::div_mod::lemma_div_pos_is_pos(part * whole, total);
}

/// Creates the pool record for a mint pair.
pub fn initialize_pool(ctx: &InitializePool, fee_rate: u16) -> (r: Result<Pool, AmmError>)
    ensures
        r == initialize_pool_result(*ctx, fee_rate),
        r matches Ok(pool) ==> pool.wf(),
{
    if fee_rate as u64 > FEE_DENOMINATOR {
        return Err(AmmError::InvalidFeeRate);
    }
    if ctx.token_a_mint == ctx.token_b_mint {
        return Err(AmmError::IdenticalMints);
    }
    Ok(Pool {
        authority: ctx.authority,
        token_a_mint: ctx.token_a_mint,
        token_b_mint: ctx.token_b_mint,
        token_a_vault: ctx.token_a_vault,
        token_b_vault: ctx.token_b_vault,
        lp_mint: ctx.lp_mint,
        fee_rate,
        bump: ctx.pool_bump,
        lp_mint_bump: ctx.lp_mint_bump,
    })
}

/// LP shares to mint for depositing `amount_a` and `amount_b`.
pub fn add_liquidity(ctx: &AddLiquidity, amount_a: u64, amount_b: u64, min_lp_tokens: u64) -> (r: Result<u64, AmmError>)
    ensures
        r == add_liquidity_result(*ctx, amount_a, amount_b, min_lp_tokens),
{
    if amount_a == 0 || amount_b == 0 {
        return Err(AmmError::InvalidAmount);
    }
    let shares: u64 = if ctx.reserve_a == 0 && ctx.reserve_b == 0 {
        integer_sqrt(wide_mul(amount_a, amount_b))
    } else {
        if ctx.reserve_a == 0 || ctx.reserve_b == 0 {
            return Err(AmmError::MathOverflow);
        }
        let from_a: u128 = wide_mul(amount_a, ctx.lp_supply) / (ctx.reserve_a as u128);
        let from_b: u128 = wide_mul(amount_b, ctx.lp_supply) / (ctx.reserve_b as u128);
        let smaller: u128 = if from_a <= from_b { from_a } else { from_b };
        if smaller > u64::MAX as u128 {
            return Err(AmmError::MathOverflow);
        }
        smaller as u64
    };
    if shares < min_lp_tokens {
        return Err(AmmError::SlippageExceeded);
    }
    if shares == 0 {
        return Err(AmmError::InvalidAmount);
    }
    Ok(shares)
}

/// What redeeming `lp_tokens` shares pays out of each vault.
pub fn remove_liquidity(ctx: &RemoveLiquidity, lp_tokens: u64, min_amount_a: u64, min_amount_b: u64) -> (r: Result<Withdrawal, AmmError>)
    ensures
        r == remove_liquidity_result(*ctx, lp_tokens, min_amount_a, min_amount_b),
{
    if lp_tokens == 0 {
        return Err(AmmError::InvalidAmount);
    }
    if ctx.lp_supply == 0 {
        return Err(AmmError::InsufficientLiquidity);
    }
    if lp_tokens > ctx.lp_supply {
        return Err(AmmError::InvalidAmount);
    }
    proof {
        lemma_part_le_whole(lp_tokens as int, ctx.reserve_a as int, ctx.lp_supply as int);
        lemma_part_le_whole(lp_tokens as int, ctx.reserve_b as int, ctx.lp_supply as int);
    }
    let amount_a = (wide_mul(lp_tokens, ctx.reserve_a) / (ctx.lp_supply as u128)) as u64;
    let amount_b = (wide_mul(lp_tokens, ctx.reserve_b) / (ctx.lp_supply as u128)) as u64;
    if amount_a < min_amount_a || amount_b < min_amount_b {
        return Err(AmmError::SlippageExceeded);
    }
    if amount_a == 0 || amount_b == 0 {
        return Err(AmmError::InvalidAmount);
    }
    Ok(Withdrawal { amount_a, amount_b })
}

/// Output of trading `amount_in` into the pool, in direction `a_to_b`.
pub fn swap(ctx: &Swap, amount_in: u64, min_amount_out: u64, a_to_b: bool) -> (r: Result<u64, AmmError>)
    ensures
        r == swap_result(*ctx, amount_in, min_amount_out, a_to_b),
{
    let (reserve_in, reserve_out) = if a_to_b {
        (ctx.reserve_a, ctx.reserve_b)
    } else {
        (ctx.reserve_b, ctx.reserve_a)
    };
    if ctx.pool.fee_rate as u64 > FEE_DENOMINATOR {
        return Err(AmmError::MathOverflow);
    }
    let keep: u64 = FEE_DENOMINATOR - ctx.pool.fee_rate as u64;
    proof {
        lemma_part_le_whole(keep as int, amount_in as int, FEE_DENOMINATOR as int);
    }
    let effective_in = (wide_mul(amount_in, keep) / (FEE_DENOMINATOR as u128)) as u64;
    let denominator = match reserve_in.checked_add(effective_in) {
        Some(d) => d,
        None => return Err(AmmError::MathOverflow),
    };
    if denominator == 0 {
        return Err(AmmError::MathOverflow);
    }
    proof {
        lemma_part_le_whole(effective_in as int, reserve_out as int, denominator as int);
    }
    let amount_out = (wide_mul(effective_in, reserve_out) / (denominator as u128)) as u64;
    if amount_out < min_amount_out {
        return Err(AmmError::SlippageExceeded);
    }
    Ok(amount_out)
}

} // verus!
