use amm_governance::{
    add_liquidity, initialize_pool, integer_sqrt, remove_liquidity, swap, Address, AddLiquidity,
    AmmError, InitializePool, Pool, RemoveLiquidity, Swap, Withdrawal,
};

fn addr(tag: u8) -> Address {
    Address::new([tag; 32])
}

fn init_ctx(mint_a: u8, mint_b: u8) -> InitializePool {
    InitializePool {
        authority: addr(1),
        token_a_mint: addr(mint_a),
        token_b_mint: addr(mint_b),
        token_a_vault: addr(4),
        token_b_vault: addr(5),
        lp_mint: addr(6),
        pool_bump: 254,
        lp_mint_bump: 253,
    }
}

fn pool_with_fee(fee_rate: u16) -> Pool {
    let mut pool = initialize_pool(&init_ctx(2, 3), 0).unwrap();
    pool.fee_rate = fee_rate;
    pool
}

fn deposit_ctx(reserve_a: u64, reserve_b: u64, lp_supply: u64) -> AddLiquidity {
    AddLiquidity { reserve_a, reserve_b, lp_supply }
}

#[test]
fn initialize_pool_records_identities() {
    let pool = initialize_pool(&init_ctx(2, 3), 30).unwrap();
    assert_eq!(pool.fee_rate, 30);
    assert!(pool.authority == addr(1));
    assert!(pool.token_a_mint == addr(2));
    assert!(pool.token_b_mint == addr(3));
    assert!(pool.token_a_vault == addr(4));
    assert!(pool.token_b_vault == addr(5));
    assert!(pool.lp_mint == addr(6));
    assert_eq!(pool.bump, 254);
    assert_eq!(pool.lp_mint_bump, 253);
}

#[test]
fn initialize_pool_accepts_full_fee() {
    assert!(initialize_pool(&init_ctx(2, 3), 10000).is_ok());
}

#[test]
fn initialize_pool_rejects_fee_above_one_whole() {
    assert_eq!(initialize_pool(&init_ctx(2, 3), 10001).unwrap_err(), AmmError::InvalidFeeRate);
}

#[test]
fn initialize_pool_rejects_identical_mints() {
    assert_eq!(initialize_pool(&init_ctx(2, 2), 30).unwrap_err(), AmmError::IdenticalMints);
}

#[test]
fn address_compares_every_byte() {
    let mut bytes = [7u8; 32];
    bytes[31] = 8;
    assert!(addr(7) != Address::new(bytes));
    assert!(addr(7) == Address::new([7u8; 32]));
}

#[test]
fn first_deposit_mints_geometric_mean() {
    assert_eq!(add_liquidity(&deposit_ctx(0, 0, 0), 100, 400, 0), Ok(200));
}

#[test]
fn first_deposit_rounds_root_down() {
    assert_eq!(add_liquidity(&deposit_ctx(0, 0, 0), 10, 10, 0), Ok(10));
    assert_eq!(add_liquidity(&deposit_ctx(0, 0, 0), 3, 5, 0), Ok(3));
}

#[test]
fn first_deposit_of_largest_amounts() {
    assert_eq!(add_liquidity(&deposit_ctx(0, 0, 0), u64::MAX, u64::MAX, 0), Ok(u64::MAX));
}

#[test]
fn integer_sqrt_is_exact() {
    assert_eq!(integer_sqrt(0), 0);
    assert_eq!(integer_sqrt(1), 1);
    assert_eq!(integer_sqrt(15), 3);
    assert_eq!(integer_sqrt(16), 4);
    assert_eq!(integer_sqrt(u128::MAX), u64::MAX);
    let big: u128 = 1u128 << 100;
    assert_eq!(integer_sqrt(big), 1u64 << 50);
    assert_eq!(integer_sqrt(big - 1), (1u64 << 50) - 1);
}

#[test]
fn later_deposit_mints_smaller_proportional_share() {
    // 50 of A is a tenth of the pool, 300 of B is three tenths.
    assert_eq!(add_liquidity(&deposit_ctx(500, 1000, 700), 50, 300, 0), Ok(70));
}

#[test]
fn balanced_deposit_keeps_ratio() {
    let ctx = deposit_ctx(1000, 2000, 1414);
    let minted = add_liquidity(&ctx, 100, 200, 0).unwrap();
    assert_eq!(minted, 141);
    assert_eq!((1000 + 100) * 2000, (2000 + 200) * 1000);
}

#[test]
fn skewed_deposit_moves_ratio_between() {
    let ctx = deposit_ctx(1000, 2000, 1414);
    assert!(add_liquidity(&ctx, 300, 200, 0).is_ok());
    let (new_a, new_b) = (1300u64, 2200u64);
    // Old ratio 1000/2000 < new ratio 1300/2200 < deposit ratio 300/200.
    assert!(new_a * 2000 > new_b * 1000);
    assert!(new_a * 200 < new_b * 300);
}

#[test]
fn deposit_rejects_zero_amount() {
    assert_eq!(add_liquidity(&deposit_ctx(0, 0, 0), 0, 5, 0), Err(AmmError::InvalidAmount));
    assert_eq!(add_liquidity(&deposit_ctx(0, 0, 0), 5, 0, 0), Err(AmmError::InvalidAmount));
}

#[test]
fn deposit_rejects_below_minimum_shares() {
    assert_eq!(
        add_liquidity(&deposit_ctx(0, 0, 0), 100, 400, 201),
        Err(AmmError::SlippageExceeded)
    );
    assert_eq!(add_liquidity(&deposit_ctx(0, 0, 0), 100, 400, 200), Ok(200));
}

#[test]
fn deposit_rejects_zero_shares() {
    assert_eq!(add_liquidity(&deposit_ctx(1000, 1000, 10), 1, 1, 0), Err(AmmError::InvalidAmount));
}

#[test]
fn deposit_into_one_sided_pool_overflows() {
    assert_eq!(add_liquidity(&deposit_ctx(0, 10, 10), 5, 5, 0), Err(AmmError::MathOverflow));
}

#[test]
fn deposit_with_share_beyond_64_bits_overflows() {
    assert_eq!(
        add_liquidity(&deposit_ctx(1, 1, u64::MAX), 2, 2, 0),
        Err(AmmError::MathOverflow)
    );
}

#[test]
fn redemption_is_proportional() {
    let ctx = RemoveLiquidity { reserve_a: 1000, reserve_b: 3000, lp_supply: 500 };
    assert_eq!(
        remove_liquidity(&ctx, 100, 0, 0),
        Ok(Withdrawal { amount_a: 200, amount_b: 600 })
    );
    assert_eq!(
        remove_liquidity(&ctx, 500, 1000, 3000),
        Ok(Withdrawal { amount_a: 1000, amount_b: 3000 })
    );
}

#[test]
fn redemption_errors() {
    let ctx = RemoveLiquidity { reserve_a: 1000, reserve_b: 3000, lp_supply: 500 };
    assert_eq!(remove_liquidity(&ctx, 0, 0, 0), Err(AmmError::InvalidAmount));
    assert_eq!(remove_liquidity(&ctx, 501, 0, 0), Err(AmmError::InvalidAmount));
    assert_eq!(remove_liquidity(&ctx, 100, 201, 0), Err(AmmError::SlippageExceeded));
    assert_eq!(remove_liquidity(&ctx, 100, 0, 601), Err(AmmError::SlippageExceeded));
    let empty = RemoveLiquidity { reserve_a: 0, reserve_b: 0, lp_supply: 0 };
    assert_eq!(remove_liquidity(&empty, 1, 0, 0), Err(AmmError::InsufficientLiquidity));
    let thin = RemoveLiquidity { reserve_a: 1, reserve_b: 3000, lp_supply: 500 };
    assert_eq!(remove_liquidity(&thin, 1, 0, 0), Err(AmmError::InvalidAmount));
}

#[test]
fn deposit_then_redeem_never_returns_more() {
    let ctx = deposit_ctx(1000, 2000, 1414);
    let minted = add_liquidity(&ctx, 300, 200, 0).unwrap();
    let after = RemoveLiquidity { reserve_a: 1300, reserve_b: 2200, lp_supply: 1414 + minted };
    let back = remove_liquidity(&after, minted, 0, 0).unwrap();
    assert!(back.amount_a <= 300);
    assert!(back.amount_b <= 200);

    let first = add_liquidity(&deposit_ctx(0, 0, 0), 100, 400, 0).unwrap();
    let after = RemoveLiquidity { reserve_a: 100, reserve_b: 400, lp_supply: first };
    assert_eq!(
        remove_liquidity(&after, first, 0, 0),
        Ok(Withdrawal { amount_a: 100, amount_b: 400 })
    );
}

#[test]
fn swap_matches_constant_product_example() {
    let ctx = Swap { pool: pool_with_fee(30), reserve_a: 1000, reserve_b: 2000 };
    assert_eq!(swap(&ctx, 100, 0, true), Ok(180));
    assert_eq!(swap(&ctx, 100, 180, true), Ok(180));
}

#[test]
fn swap_b_to_a_uses_reversed_reserves() {
    let ctx = Swap { pool: pool_with_fee(30), reserve_a: 1000, reserve_b: 2000 };
    // 100 * 9970 / 10000 = 99; 99 * 1000 / (2000 + 99) = 47.
    assert_eq!(swap(&ctx, 100, 0, false), Ok(47));
}

#[test]
fn swap_keeps_reserve_product() {
    let ctx = Swap { pool: pool_with_fee(30), reserve_a: 1000, reserve_b: 2000 };
    let out = swap(&ctx, 100, 0, true).unwrap();
    assert!((1000 + 100) * (2000 - out) >= 1000 * 2000);
    let ctx = Swap { pool: pool_with_fee(0), reserve_a: 7, reserve_b: 13 };
    let out = swap(&ctx, 5, 0, false).unwrap();
    assert!((7 - out) * (13 + 5) >= 7 * 13);
}

#[test]
fn swap_rejects_below_minimum_output() {
    let ctx = Swap { pool: pool_with_fee(30), reserve_a: 1000, reserve_b: 2000 };
    assert_eq!(swap(&ctx, 100, 181, true), Err(AmmError::SlippageExceeded));
}

#[test]
fn swap_with_corrupt_fee_overflows() {
    let ctx = Swap { pool: pool_with_fee(10001), reserve_a: 1000, reserve_b: 2000 };
    assert_eq!(swap(&ctx, 100, 0, true), Err(AmmError::MathOverflow));
}

#[test]
fn swap_into_empty_pool_with_nothing_divides_by_zero() {
    let ctx = Swap { pool: pool_with_fee(30), reserve_a: 0, reserve_b: 0 };
    assert_eq!(swap(&ctx, 0, 0, true), Err(AmmError::MathOverflow));
}

#[test]
fn swap_overflowing_input_reserve() {
    let ctx = Swap { pool: pool_with_fee(0), reserve_a: u64::MAX, reserve_b: 2000 };
    assert_eq!(swap(&ctx, 1, 0, true), Err(AmmError::MathOverflow));
}
