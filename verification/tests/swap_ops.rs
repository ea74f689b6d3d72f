use pool_ledger::address::Address;
use pool_ledger::config::AmmConfig;
use pool_ledger::errors::ErrorCode;
use pool_ledger::fees::FeeSplit;
use pool_ledger::initialize::{CreatorFunds, PoolKeys};
use pool_ledger::oracle::{Observation, ObservationState};
use pool_ledger::pool::{DepositAmount, PoolState};
use pool_ledger::swap::{SwapQuote, SwapResult, TradeDirection};

fn key(first: u8) -> Address {
    let mut bytes = [0u8; 32];
    bytes[0] = first;
    Address::new(bytes)
}

fn config() -> AmmConfig {
    AmmConfig::create(0, 2_500, 300, 100, 0, key(11), key(12)).unwrap()
}

fn open_pool(open_time: u64) -> (PoolState, ObservationState) {
    let keys = PoolKeys {
        pool_id: key(20),
        amm_config: key(21),
        pool_creator: key(22),
        token_0_vault: key(23),
        token_1_vault: key(24),
        lp_mint: key(25),
        token_0_mint: key(1),
        token_1_mint: key(2),
        token_0_program: key(26),
        token_1_program: key(27),
        observation_key: key(28),
        auth_bump: 254,
        lp_mint_decimals: 9,
        mint_0_decimals: 6,
        mint_1_decimals: 6,
    };
    let funds = CreatorFunds { token_0: u64::MAX, token_1: u64::MAX, fee_funds: 0 };
    PoolState::initialize(&config(), keys, funds, 100_000_000, 50_000_000, open_time, 70_710_678)
        .unwrap()
}

/// The constant-product curve.
fn constant_product(reserve_in: u64, reserve_out: u64, input: u64) -> u64 {
    (reserve_out as u128 * input as u128 / (reserve_in as u128 + input as u128)) as u64
}

#[test]
fn a_swap_accrues_the_fee_shares_in_the_asset_paid_in() {
    let (mut pool, mut oracle) = open_pool(0);
    let before = pool;
    let done = pool.swap(
        &config(),
        &mut oracle,
        100_000_000,
        50_000_000,
        1_000_000,
        490_000,
        TradeDirection::ZeroForOne,
        1_000,
        constant_product,
    );
    let fees = FeeSplit { lp_fee: 2_100, protocol_fee: 300, fund_fee: 100 };
    assert_eq!(
        done,
        Ok(SwapResult { input_amount: 1_000_000, output_amount: 493_824, fees })
    );
    assert_eq!(pool.protocol_fees_token_0, before.protocol_fees_token_0 + 300);
    assert_eq!(pool.fund_fees_token_0, before.fund_fees_token_0 + 100);
    assert_eq!(
        pool,
        PoolState { protocol_fees_token_0: 300, fund_fees_token_0: 100, ..before }
    );
    // the vaults after the trade cover the fees, and the rest is the reserve
    assert_eq!(
        pool.vault_amount_without_fee(101_000_000, 50_000_000 - 493_824),
        Ok((100_999_600, 49_506_176))
    );
    // the oracle took the prices as they stood before the trade
    assert!(oracle.initialized);
    assert_eq!(
        oracle.observations[0],
        Observation {
            block_timestamp: 1_000,
            cumulative_token_0_price_x32: 2_147_483_648,
            cumulative_token_1_price_x32: 8_589_934_592
        }
    );
}

#[test]
fn a_swap_the_other_way_accrues_in_the_other_asset() {
    let (mut pool, mut oracle) = open_pool(0);
    pool.protocol_fees_token_1 = 5;
    pool.fund_fees_token_1 = 6;
    let before = pool;
    let done = pool
        .swap(
            &config(),
            &mut oracle,
            100_000_000,
            50_000_011,
            1_000_000,
            0,
            TradeDirection::OneForZero,
            1_000,
            constant_product,
        )
        .unwrap();
    assert_eq!(done.fees, FeeSplit { lp_fee: 2_100, protocol_fee: 300, fund_fee: 100 });
    // 100_000_000 * 997_500 / 50_997_500
    assert_eq!(done.output_amount, 1_955_978);
    assert_eq!(
        pool,
        PoolState { protocol_fees_token_1: 305, fund_fees_token_1: 106, ..before }
    );
}

#[test]
fn the_curve_is_asked_with_the_reserves_and_the_input_less_the_fee() {
    let (mut pool, _) = open_pool(0);
    pool.protocol_fees_token_0 = 40;
    pool.fund_fees_token_1 = 60;
    let quote = pool
        .swap_quote(&config(), 100_000_040, 50_000_060, 1_000_000, TradeDirection::ZeroForOne, 5)
        .unwrap();
    assert_eq!(
        quote,
        SwapQuote {
            fees: FeeSplit { lp_fee: 2_100, protocol_fee: 300, fund_fee: 100 },
            effective_input: 997_500,
            reserve_in: 100_000_000,
            reserve_out: 50_000_000,
        }
    );
    let quote = pool
        .swap_quote(&config(), 100_000_040, 50_000_060, 400, TradeDirection::OneForZero, 5)
        .unwrap();
    assert_eq!(
        quote,
        SwapQuote {
            fees: FeeSplit { lp_fee: 1, protocol_fee: 0, fund_fee: 0 },
            effective_input: 399,
            reserve_in: 50_000_000,
            reserve_out: 100_000_000,
        }
    );
    let mut oracle = ObservationState::new(key(20));
    let seen = pool.swap(
        &config(),
        &mut oracle,
        100_000_040,
        50_000_060,
        1_000_000,
        0,
        TradeDirection::ZeroForOne,
        5,
        |reserve_in, reserve_out, input| {
            assert_eq!((reserve_in, reserve_out, input), (100_000_000, 50_000_000, 997_500));
            17
        },
    );
    assert_eq!(seen.unwrap().output_amount, 17);
}

#[test]
fn swap_refusals_change_nothing() {
    let (mut pool, mut oracle) = open_pool(500);
    let pool_before = pool;
    let oracle_before = oracle;
    let cfg = config();
    let dir = TradeDirection::ZeroForOne;

    assert_eq!(
        pool.swap(&cfg, &mut oracle, 100_000_000, 50_000_000, 1_000_000, 0, dir, 499, constant_product),
        Err(ErrorCode::PoolNotOpen)
    );
    assert_eq!(
        pool.swap(&cfg, &mut oracle, 100_000_000, 50_000_000, 1_000_000, 493_825, dir, 500, constant_product),
        Err(ErrorCode::SlippageExceeded)
    );
    assert_eq!(
        pool.swap(&cfg, &mut oracle, 100_000_000, 0, 1_000_000, 0, dir, 500, constant_product),
        Err(ErrorCode::ZeroLiquidity)
    );
    assert_eq!(
        pool.swap(&cfg, &mut oracle, 0, 50_000_000, 1_000_000, 0, dir, 500, constant_product),
        Err(ErrorCode::ZeroLiquidity)
    );
    // a curve that pays out the whole reserve, or more
    assert_eq!(
        pool.swap(&cfg, &mut oracle, 100_000_000, 50_000_000, 1_000_000, 0, dir, 500, |_, out, _| out),
        Err(ErrorCode::InsufficientLiquidity)
    );
    assert_eq!(
        pool.swap(&cfg, &mut oracle, 100_000_000, 50_000_000, 1_000_000, 0, dir, 500, |_, _, _| u64::MAX),
        Err(ErrorCode::InsufficientLiquidity)
    );
    // the vault of the asset paid in would run over
    assert_eq!(
        pool.swap(&cfg, &mut oracle, u64::MAX - 5, 50_000_000, 6, 0, dir, 500, constant_product),
        Err(ErrorCode::ArithmeticOverflow)
    );
    assert_eq!(pool, pool_before);
    assert_eq!(oracle, oracle_before);

    pool.status = 0b100;
    assert_eq!(
        pool.swap(&cfg, &mut oracle, 100_000_000, 50_000_000, 1_000_000, 0, dir, 499, constant_product),
        Err(ErrorCode::PoolDisabled)
    );
    pool.status = 0b011;
    assert!(pool
        .swap(&cfg, &mut oracle, 100_000_000, 50_000_000, 1_000_000, 0, dir, 500, constant_product)
        .is_ok());
}

#[test]
fn a_swap_on_vaults_that_do_not_cover_the_fees_is_refused() {
    let (mut pool, mut oracle) = open_pool(0);
    pool.protocol_fees_token_1 = 30;
    pool.fund_fees_token_1 = 30;
    let before = pool;
    assert_eq!(
        pool.swap(
            &config(),
            &mut oracle,
            100_000_000,
            59,
            1_000_000,
            0,
            TradeDirection::ZeroForOne,
            0,
            constant_product
        ),
        Err(ErrorCode::ArithmeticUnderflow)
    );
    assert_eq!(pool, before);
    assert!(!oracle.initialized);
}

#[test]
fn a_vault_that_would_run_over_refuses_the_trade() {
    let (mut pool, mut oracle) = open_pool(0);
    pool.protocol_fees_token_0 = u64::MAX - 1_000_300;
    let before = pool;
    let vault_0 = u64::MAX - 1_000_000;
    assert_eq!(
        pool.apply_swap(
            &config(),
            &mut oracle,
            vault_0,
            50_000_000,
            1_000_001,
            0,
            TradeDirection::ZeroForOne,
            0,
            1
        ),
        Err(ErrorCode::ArithmeticOverflow)
    );
    assert_eq!(pool, before);
    assert!(!oracle.initialized);
    // one unit less fills the vault to the brim
    assert_eq!(
        pool.apply_swap(
            &config(),
            &mut oracle,
            vault_0,
            50_000_000,
            1_000_000,
            0,
            TradeDirection::ZeroForOne,
            0,
            1
        )
        .map(|done| done.output_amount),
        Ok(1)
    );
    assert_eq!(pool.protocol_fees_token_0, u64::MAX - 1_000_000);
    assert_eq!(pool.fund_fees_token_0, 100);
    assert_eq!(pool.vault_amount_without_fee(u64::MAX, 49_999_999), Ok((999_900, 49_999_999)));
}

#[test]
fn shares_stated_as_parts_of_the_whole_fee_do_not_split() {
    // a tier whose protocol and fund rates exceed its trade rate cannot be
    // created; written down by hand, it makes every trade with a fee fail
    let tier = AmmConfig {
        trade_fee_rate: 2_500,
        protocol_fee_rate: 120_000,
        fund_fee_rate: 40_000,
        ..config()
    };
    assert!(!tier.is_well_formed());
    let (mut pool, mut oracle) = open_pool(0);
    let before = pool;
    assert_eq!(
        pool.swap(
            &tier,
            &mut oracle,
            100_000_000,
            50_000_000,
            1_000_000,
            0,
            TradeDirection::ZeroForOne,
            0,
            constant_product
        ),
        Err(ErrorCode::ArithmeticUnderflow)
    );
    assert_eq!(pool, before);
    assert!(!oracle.initialized);
}

#[test]
fn apply_swap_settles_any_output_the_curve_names() {
    let (mut pool, mut oracle) = open_pool(0);
    let cfg = config();
    let dir = TradeDirection::ZeroForOne;
    let fees = FeeSplit { lp_fee: 2_100, protocol_fee: 300, fund_fee: 100 };
    assert_eq!(
        pool.apply_swap(&cfg, &mut oracle, 100_000_000, 50_000_000, 1_000_000, 0, dir, 10, 49_999_999),
        Ok(SwapResult { input_amount: 1_000_000, output_amount: 49_999_999, fees })
    );
    assert_eq!(
        pool.apply_swap(&cfg, &mut oracle, 101_000_000, 1, 1_000_000, 0, dir, 10, 1),
        Err(ErrorCode::InsufficientLiquidity)
    );
    assert_eq!(
        pool.apply_swap(&cfg, &mut oracle, 101_000_000, 1, 1_000_000, 1, dir, 10, 0),
        Err(ErrorCode::SlippageExceeded)
    );
    // an output at or beyond the reserve is refused before the least output is looked at
    assert_eq!(
        pool.apply_swap(&cfg, &mut oracle, 101_000_000, 1, 1_000_000, 5, dir, 10, 1),
        Err(ErrorCode::InsufficientLiquidity)
    );
    assert_eq!(
        pool.apply_swap(&cfg, &mut oracle, 101_000_000, 1, 0, 0, dir, 10, 0),
        Ok(SwapResult {
            input_amount: 0,
            output_amount: 0,
            fees: FeeSplit { lp_fee: 0, protocol_fee: 0, fund_fee: 0 }
        })
    );
}

#[test]
fn swaps_feed_the_oracle_no_more_often_than_the_least_spacing() {
    let (mut pool, mut oracle) = open_pool(0);
    let cfg = config();
    let dir = TradeDirection::ZeroForOne;
    let mut vault_0 = 100_000_000u64;
    let mut vault_1 = 50_000_000u64;
    for (time, index) in [(100u64, 0u16), (110, 0), (114, 0), (115, 1), (129, 1), (130, 2)] {
        let done = pool
            .swap(&cfg, &mut oracle, vault_0, vault_1, 10_000, 0, dir, time, constant_product)
            .unwrap();
        vault_0 += done.input_amount;
        vault_1 -= done.output_amount;
        assert_eq!(oracle.observation_index, index);
        // at all times the vaults cover the fees owed
        assert!(pool.vault_amount_without_fee(vault_0, vault_1).is_ok());
    }
    assert_eq!(oracle.observations[0].block_timestamp, 100);
    assert_eq!(oracle.observations[1].block_timestamp, 115);
    assert_eq!(oracle.observations[2].block_timestamp, 130);
    // 6 trades of 10_000: whole fee 25 each, of which 3 and 1
    assert_eq!(pool.protocol_fees_token_0, 18);
    assert_eq!(pool.fund_fees_token_0, 6);
}

#[test]
fn the_vaults_cover_the_fees_through_a_life_of_the_pool() {
    let (mut pool, mut oracle) = open_pool(0);
    let cfg = config();
    let mut vault_0 = 100_000_000u64;
    let mut vault_1 = 50_000_000u64;
    let mut time = 0u64;
    let owed = |p: &PoolState| {
        (
            p.protocol_fees_token_0 + p.fund_fees_token_0,
            p.protocol_fees_token_1 + p.fund_fees_token_1,
        )
    };
    for round in 0..50u64 {
        time += 7;
        let dir = if round % 2 == 0 { TradeDirection::ZeroForOne } else { TradeDirection::OneForZero };
        let done = pool
            .swap(&cfg, &mut oracle, vault_0, vault_1, 1_000_000 + round, 0, dir, time, constant_product)
            .unwrap();
        match dir {
            TradeDirection::ZeroForOne => {
                vault_0 += done.input_amount;
                vault_1 -= done.output_amount;
            }
            TradeDirection::OneForZero => {
                vault_1 += done.input_amount;
                vault_0 -= done.output_amount;
            }
        }
        assert!(vault_0 >= owed(&pool).0 && vault_1 >= owed(&pool).1);

        let paid = pool.deposit(vault_0, vault_1, DepositAmount::LpTokens(1_000 + round)).unwrap();
        vault_0 += paid.token_0_amount;
        vault_1 += paid.token_1_amount;
        assert!(vault_0 >= owed(&pool).0 && vault_1 >= owed(&pool).1);

        let got = pool.withdraw(vault_0, vault_1, 5_000, 500 + round).unwrap();
        vault_0 -= got.token_0_amount;
        vault_1 -= got.token_1_amount;
        assert!(vault_0 >= owed(&pool).0 && vault_1 >= owed(&pool).1);

        if round % 10 == 9 {
            let (fee_0, fee_1) = pool.collect_protocol_fee(&cfg, &key(11), vault_0, vault_1).unwrap();
            vault_0 -= fee_0;
            vault_1 -= fee_1;
            assert!(vault_0 >= owed(&pool).0 && vault_1 >= owed(&pool).1);
            let (fee_0, fee_1) = pool.collect_fund_fee(&cfg, &key(12), vault_0, vault_1).unwrap();
            vault_0 -= fee_0;
            vault_1 -= fee_1;
            assert_eq!(owed(&pool), (0, 0));
        }
    }
    // withdraw everything: the vaults keep exactly what is still owed
    let all = pool.lp_supply;
    let got = pool.withdraw(vault_0, vault_1, all, all).unwrap();
    assert_eq!(vault_0 - got.token_0_amount, owed(&pool).0);
    assert_eq!(vault_1 - got.token_1_amount, owed(&pool).1);
}
