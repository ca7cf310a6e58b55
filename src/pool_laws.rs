//! Laws of the pool engine, stated over the results that its operations are
//! proved to return.
use vstd::prelude::*;

use crate::math::lemma_floor_sqrt_of_product_fits;
use crate::pool::{
    add_liquidity_result, input_after_fee, redeemed, swap_output, swap_result, trade_reserves,
    AddLiquidity, Swap, FEE_DENOMINATOR,
};

verus! {

/// `q * d <= x` for the floor quotient `q = x / d`.
proof fn lemma_quotient_times_divisor(x: int, d: int)
    requires
        0 <= x,
        0 < d,
    ensures
        (x / d) * d <= x,
        x < (x / d) * d + d,
{
    vstd::arithmetic::div_mod::lemma_fundamental_div_mod(x, d);
    vstd::arithmetic::div_mod::lemma_mod_pos_bound(x, d);
    assert((x / d) * d == d * (x / d)) by (nonlinear_arith);
}

proof fn lemma_scaled_quotient_le(x: int, y: int, d: int)
    requires
        0 <= x <= y * d,
        0 < d,
    ensures
        x / d <= y,
{
    vstd::arithmetic::div_mod::lemma_div_is_ordered(x, y * d, d);
    assert(y * d == d * y) by (nonlinear_arith);
    vstd::arithmetic::div_mod::lemma_div_multiples_vanish(y, d);
}

/// Redeeming `shares` right after a proportional deposit of `amount` into
/// `reserve` pays back at most `amount`.
proof fn lemma_redeem_after_proportional_deposit(shares: int, amount: int, reserve: int, supply: int)
    requires
        0 < reserve,
        0 <= amount,
        0 <= supply,
        0 < shares <= amount * supply / reserve,
    ensures
        redeemed(shares, reserve + amount, supply + shares) <= amount,
{
    assert(0 <= amount * supply) by (nonlinear_arith)
        requires
            0 <= amount,
            0 <= supply,
    ;
    lemma_quotient_times_divisor(amount * supply, reserve);
    let q = amount * supply / reserve;
    assert(shares * (reserve + amount) <= amount * (supply + shares)) by (nonlinear_arith)
        requires
            0 < reserve,
            0 < shares <= q,
            q * reserve <= amount * supply,
    ;
    assert(0 <= shares * (reserve + amount)) by (nonlinear_arith)
        requires
            0 < reserve,
            0 <= amount,
            0 < shares,
    ;
    assert(amount * (supply + shares) == (supply + shares) * amount) by (nonlinear_arith);
    lemma_scaled_quotient_le(shares * (reserve + amount), amount, supply + shares);
}

/// Redeeming the shares of a first deposit pays back at most the deposit.
proof fn lemma_redeem_after_first_deposit(shares: int, amount: int, supply: int)
    requires
        0 < shares,
        0 <= amount,
        0 <= supply,
    ensures
        redeemed(shares, amount, supply + shares) <= amount,
{
    assert(0 <= shares * amount <= amount * (supply + shares)) by (nonlinear_arith)
        requires
            0 < shares,
            0 <= amount,
            0 <= supply,
    ;
    lemma_scaled_quotient_le(shares * amount, amount, supply + shares);
}

/// A deposit moves the pool's reserve ratio toward the deposit's own ratio.
/// Where the deposit matches the pool's ratio exactly, the ratio stays where it
/// was; where it does not, the new ratio lies strictly between the old one and
/// the deposit's. Ratios are compared by cross-multiplication.
pub proof fn lemma_deposit_moves_ratio_toward(
    ctx: AddLiquidity,
    amount_a: u64,
    amount_b: u64,
    min_lp_tokens: u64,
)
    requires
        add_liquidity_result(ctx, amount_a, amount_b, min_lp_tokens) is Ok,
    ensures
        ({
            let ra = ctx.reserve_a as int;
            let rb = ctx.reserve_b as int;
            let new_a = ra + amount_a;
            let new_b = rb + amount_b;
            &&& amount_a * rb == amount_b * ra ==> new_a * rb == new_b * ra
            &&& amount_a * rb > amount_b * ra ==> new_a * rb > new_b * ra && new_a * amount_b
                < new_b * amount_a
            &&& amount_a * rb < amount_b * ra ==> new_a * rb < new_b * ra && new_a * amount_b
                > new_b * amount_a
        }),
{
    let ra = ctx.reserve_a as int;
    let rb = ctx.reserve_b as int;
    let a = amount_a as int;
    let b = amount_b as int;
    assert((ra + a) * rb - (rb + b) * ra == a * rb - b * ra) by (nonlinear_arith);
    assert((ra + a) * b - (rb + b) * a == ra * b - rb * a) by (nonlinear_arith);
    assert(a * rb == rb * a && b * ra == ra * b) by (nonlinear_arith);
}

/// Depositing and then at once redeeming every share that the deposit minted
/// never pays out more of either token than was put in.
pub proof fn lemma_deposit_then_redeem_never_more(
    ctx: AddLiquidity,
    amount_a: u64,
    amount_b: u64,
    min_lp_tokens: u64,
)
    requires
        add_liquidity_result(ctx, amount_a, amount_b, min_lp_tokens) is Ok,
    ensures
        ({
            let shares = add_liquidity_result(ctx, amount_a, amount_b, min_lp_tokens)->Ok_0 as int;
            let supply = ctx.lp_supply + shares;
            &&& redeemed(shares, ctx.reserve_a + amount_a, supply) <= amount_a
            &&& redeemed(shares, ctx.reserve_b + amount_b, supply) <= amount_b
        }),
{
    let shares = add_liquidity_result(ctx, amount_a, amount_b, min_lp_tokens)->Ok_0 as int;
    if ctx.reserve_a == 0 && ctx.reserve_b == 0 {
        lemma_floor_sqrt_of_product_fits(amount_a, amount_b);
        lemma_redeem_after_first_deposit(shares, amount_a as int, ctx.lp_supply as int);
        lemma_redeem_after_first_deposit(shares, amount_b as int, ctx.lp_supply as int);
    } else {
        lemma_redeem_after_proportional_deposit(
            shares,
            amount_a as int,
            ctx.reserve_a as int,
            ctx.lp_supply as int,
        );
        lemma_redeem_after_proportional_deposit(
            shares,
            amount_b as int,
            ctx.reserve_b as int,
            ctx.lp_supply as int,
        );
    }
}

proof fn lemma_trade_product(reserve_in: int, reserve_out: int, amount_in: int, effective_in: int)
    requires
        0 <= reserve_in,
        0 <= reserve_out,
        0 <= effective_in <= amount_in,
        0 < reserve_in + effective_in,
    ensures
        0 <= swap_output(effective_in, reserve_in, reserve_out) <= reserve_out,
        (reserve_in + amount_in) * (reserve_out - swap_output(effective_in, reserve_in, reserve_out))
            >= reserve_in * reserve_out,
{
    let d = reserve_in + effective_in;
    assert(0 <= effective_in * reserve_out <= d * reserve_out) by (nonlinear_arith)
        requires
            0 <= effective_in <= d,
            0 <= reserve_out,
    ;
    lemma_quotient_times_divisor(effective_in * reserve_out, d);
    lemma_scaled_quotient_le(effective_in * reserve_out, reserve_out, d);
    let out = swap_output(effective_in, reserve_in, reserve_out);
    assert((reserve_in + amount_in) * (reserve_out - out) >= reserve_in * reserve_out)
        by (nonlinear_arith)
        requires
            d == reserve_in + effective_in,
            0 <= effective_in <= amount_in,
            0 <= reserve_in,
            0 <= out <= reserve_out,
            out * d <= effective_in * reserve_out,
    ;
}

/// A trade never lowers the product of the reserves: with the whole input
/// (fee included) added to one vault and the output taken from the other,
/// `reserve_a * reserve_b` is at least what it was before.
pub proof fn lemma_swap_keeps_product(ctx: Swap, amount_in: u64, min_amount_out: u64, a_to_b: bool)
    requires
        swap_result(ctx, amount_in, min_amount_out, a_to_b) is Ok,
    ensures
        ({
            let out = swap_result(ctx, amount_in, min_amount_out, a_to_b)->Ok_0 as int;
            let new_a = if a_to_b {
                ctx.reserve_a + amount_in
            } else {
                ctx.reserve_a - out
            };
            let new_b = if a_to_b {
                ctx.reserve_b - out
            } else {
                ctx.reserve_b + amount_in
            };
            new_a * new_b >= ctx.reserve_a * ctx.reserve_b
        }),
{
    let (reserve_in, reserve_out) = trade_reserves(ctx, a_to_b);
    let keep = FEE_DENOMINATOR - ctx.pool.fee_rate;
    let effective_in = input_after_fee(amount_in as int, ctx.pool.fee_rate as int);
    assert(0 <= amount_in * keep <= amount_in * FEE_DENOMINATOR) by (nonlinear_arith)
        requires
            0 <= keep <= FEE_DENOMINATOR,
            0 <= amount_in,
    ;
    lemma_scaled_quotient_le(amount_in * keep, amount_in as int, FEE_DENOMINATOR as int);
    lemma_trade_product(reserve_in as int, reserve_out as int, amount_in as int, effective_in);
    let out = swap_output(effective_in, reserve_in as int, reserve_out as int);
    if !a_to_b {
        assert((ctx.reserve_a - out) * (ctx.reserve_b + amount_in) == (ctx.reserve_b + amount_in)
            * (ctx.reserve_a - out)) by (nonlinear_arith);
        assert(ctx.reserve_b * ctx.reserve_a == ctx.reserve_a * ctx.reserve_b) by (nonlinear_arith);
    }
}

} // verus!
