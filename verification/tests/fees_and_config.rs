use pool_ledger::address::Address;
use pool_ledger::config::{rates_are_in_order, AmmConfig, ConfigUpdate};
use pool_ledger::errors::{ErrorCode, ErrorKind};
use pool_ledger::fees::{split_fee, FeeSplit, FEE_RATE_DENOMINATOR_VALUE};
use pool_ledger::math::{mul_div_ceil_u64, mul_div_floor_u64};
use pool_ledger::registry::ConfigRegistry;

fn key(first: u8) -> Address {
    let mut bytes = [0u8; 32];
    bytes[0] = first;
    Address::new(bytes)
}

#[test]
fn split_fee_gives_exact_shares() {
    let split = split_fee(1_000_000, 2_500, 300, 100);
    assert_eq!(split, Ok(FeeSplit { lp_fee: 2_100, protocol_fee: 300, fund_fee: 100 }));
}

#[test]
fn split_fee_rounds_every_division_down() {
    // 999 * 2500 / 10^6 = 2.4975, 2 * 300 / 2500 = 0.24, 2 * 100 / 2500 = 0.08
    let split = split_fee(999, 2_500, 300, 100);
    assert_eq!(split, Ok(FeeSplit { lp_fee: 2, protocol_fee: 0, fund_fee: 0 }));
    // 1_000_003 * 999_999 / 10^6 = 1_000_001.999997
    let split = split_fee(1_000_003, 999_999, 333_333, 666_666);
    assert_eq!(
        split,
        Ok(FeeSplit { lp_fee: 1, protocol_fee: 333_333, fund_fee: 666_667 })
    );
}

#[test]
fn split_fee_of_zero_rate_or_zero_amount_is_nothing() {
    let nothing = FeeSplit { lp_fee: 0, protocol_fee: 0, fund_fee: 0 };
    assert_eq!(split_fee(1_000_000, 0, 0, 0), Ok(nothing));
    assert_eq!(split_fee(0, 2_500, 300, 100), Ok(nothing));
    assert_eq!(split_fee(5, 0, 7, 9), Ok(nothing));
}

#[test]
fn split_fee_shares_add_up_to_the_whole_fee() {
    let amounts = [1u64, 7, 399, 400, 401, 123_456_789, u64::MAX];
    let rates = [(1u64, 0u64, 1u64), (2_500, 300, 100), (999_999, 500_000, 499_999), (30, 10, 20)];
    for amount in amounts {
        for (trade, protocol, fund) in rates {
            let split = split_fee(amount, trade, protocol, fund).unwrap();
            let whole = (amount as u128 * trade as u128 / 1_000_000) as u64;
            assert_eq!(split.lp_fee + split.protocol_fee + split.fund_fee, whole);
            assert!(whole < amount);
            assert!(split.protocol_fee + split.fund_fee <= whole);
        }
    }
}

#[test]
fn split_fee_refuses_a_fee_beyond_64_bits() {
    assert_eq!(split_fee(u64::MAX, u64::MAX, 0, 0), Err(ErrorCode::ArithmeticOverflow));
    // whole fee 5, protocol share 5 * u64::MAX / 1
    assert_eq!(split_fee(5_000_000, 1, u64::MAX, 0), Err(ErrorCode::ArithmeticOverflow));
    assert_eq!(split_fee(5_000_000, 1, 0, u64::MAX), Err(ErrorCode::ArithmeticOverflow));
}

#[test]
fn split_fee_refuses_shares_beyond_the_whole_fee() {
    // whole fee 2500; shares 120_000 and 40_000
    assert_eq!(split_fee(1_000_000, 2_500, 120_000, 40_000), Err(ErrorCode::ArithmeticUnderflow));
    assert_eq!(split_fee(1_000_000, 2_500, 2_000, 501), Err(ErrorCode::ArithmeticUnderflow));
    assert_eq!(
        split_fee(1_000_000, 2_500, 2_000, 500),
        Ok(FeeSplit { lp_fee: 0, protocol_fee: 2_000, fund_fee: 500 })
    );
}

#[test]
fn denominator_is_one_million() {
    assert_eq!(FEE_RATE_DENOMINATOR_VALUE, 1_000_000);
}

#[test]
fn rates_in_order_on_the_bounds() {
    assert!(rates_are_in_order(999_999, 999_999, 0));
    assert!(rates_are_in_order(0, 0, 0));
    assert!(!rates_are_in_order(1_000_000, 0, 0));
    assert!(!rates_are_in_order(5, 6, 0));
    assert!(!rates_are_in_order(5, 3, 3));
    assert!(rates_are_in_order(6, 3, 3));
    assert!(!rates_are_in_order(999_999, 1_000_000, 0));
    assert!(!rates_are_in_order(999_999, 0, u64::MAX));
    assert!(!rates_are_in_order(u64::MAX, u64::MAX, u64::MAX));
}

#[test]
fn create_config_holds_what_was_given() {
    let c = AmmConfig::create(3, 2_500, 300, 100, 77, key(1), key(2)).unwrap();
    assert_eq!(
        c,
        AmmConfig {
            bump: 0,
            disable_create_pool: false,
            index: 3,
            trade_fee_rate: 2_500,
            protocol_fee_rate: 300,
            fund_fee_rate: 100,
            create_pool_fee: 77,
            protocol_owner: key(1),
            fund_owner: key(2),
            padding: [0; 16],
        }
    );
    assert!(c.is_well_formed());
}

#[test]
fn create_config_refuses_rates_out_of_order() {
    let e = Err(ErrorCode::InvalidFeeRate);
    assert_eq!(AmmConfig::create(0, 1_000_000, 0, 0, 0, key(1), key(2)), e);
    assert_eq!(AmmConfig::create(0, 2_500, 1_000_000, 0, 0, key(1), key(2)), e);
    assert_eq!(AmmConfig::create(0, 2_500, 0, 1_000_000, 0, key(1), key(2)), e);
    assert_eq!(AmmConfig::create(0, 2_500, 2_000, 501, 0, key(1), key(2)), e);
    // shares stated as parts of the whole fee rather than of the trade rate
    assert_eq!(AmmConfig::create(0, 2_500, 120_000, 40_000, 0, key(1), key(2)), e);
}

#[test]
fn update_config_changes_one_field_at_a_time() {
    let start = AmmConfig::create(3, 2_500, 300, 100, 77, key(1), key(2)).unwrap();
    let owner = key(1);

    let mut c = start;
    assert_eq!(c.update(&owner, ConfigUpdate::TradeFeeRate(3_000)), Ok(()));
    assert_eq!(c, AmmConfig { trade_fee_rate: 3_000, ..start });

    let mut c = start;
    assert_eq!(c.update(&owner, ConfigUpdate::ProtocolFeeRate(2_400)), Ok(()));
    assert_eq!(c, AmmConfig { protocol_fee_rate: 2_400, ..start });

    let mut c = start;
    assert_eq!(c.update(&owner, ConfigUpdate::FundFeeRate(2_200)), Ok(()));
    assert_eq!(c, AmmConfig { fund_fee_rate: 2_200, ..start });

    let mut c = start;
    assert_eq!(c.update(&owner, ConfigUpdate::CreatePoolFee(5)), Ok(()));
    assert_eq!(c, AmmConfig { create_pool_fee: 5, ..start });

    let mut c = start;
    assert_eq!(c.update(&owner, ConfigUpdate::DisableCreatePool(true)), Ok(()));
    assert_eq!(c, AmmConfig { disable_create_pool: true, ..start });

    let mut c = start;
    assert_eq!(c.update(&owner, ConfigUpdate::FundOwner(key(9))), Ok(()));
    assert_eq!(c, AmmConfig { fund_owner: key(9), ..start });

    let mut c = start;
    assert_eq!(c.update(&owner, ConfigUpdate::ProtocolOwner(key(8))), Ok(()));
    assert_eq!(c, AmmConfig { protocol_owner: key(8), ..start });
    // the old owner has handed the tier over
    assert_eq!(c.update(&owner, ConfigUpdate::CreatePoolFee(1)), Err(ErrorCode::Unauthorized));
    assert_eq!(c.update(&key(8), ConfigUpdate::CreatePoolFee(1)), Ok(()));
}

#[test]
fn update_config_refusals_change_nothing() {
    let start = AmmConfig::create(3, 2_500, 300, 100, 77, key(1), key(2)).unwrap();
    let mut c = start;
    assert_eq!(c.update(&key(2), ConfigUpdate::TradeFeeRate(3_000)), Err(ErrorCode::Unauthorized));
    assert_eq!(c, start);
    assert_eq!(c.update(&key(1), ConfigUpdate::TradeFeeRate(399)), Err(ErrorCode::InvalidFeeRate));
    assert_eq!(c, start);
    assert_eq!(
        c.update(&key(1), ConfigUpdate::TradeFeeRate(1_000_000)),
        Err(ErrorCode::InvalidFeeRate)
    );
    assert_eq!(
        c.update(&key(1), ConfigUpdate::ProtocolFeeRate(2_401)),
        Err(ErrorCode::InvalidFeeRate)
    );
    assert_eq!(c.update(&key(1), ConfigUpdate::FundFeeRate(2_201)), Err(ErrorCode::InvalidFeeRate));
    assert_eq!(c, start);
    // a caller who is not the owner is turned away before the rate is looked at
    assert_eq!(c.update(&key(7), ConfigUpdate::TradeFeeRate(1)), Err(ErrorCode::Unauthorized));
}

#[test]
fn registry_keeps_each_tier_under_its_number() {
    let mut registry = ConfigRegistry::new();
    assert_eq!(registry.len(), 0);
    assert_eq!(registry.get(0), None);
    let a = registry.create(0, 2_500, 300, 100, 1, key(1), key(2)).unwrap();
    let b = registry.create(7, 100, 50, 50, 2, key(3), key(4)).unwrap();
    assert_eq!(a.index, 0);
    assert_eq!(b.index, 7);
    assert_eq!(registry.len(), 2);
    assert_eq!(registry.get(0), Some(a));
    assert_eq!(registry.get(7), Some(b));
    assert_eq!(registry.get(1), None);
    assert_eq!(b.trade_fee_rate, 100);
    assert_eq!(b.protocol_owner, key(3));
}

#[test]
fn registry_refuses_a_number_in_use() {
    let mut registry = ConfigRegistry::new();
    let a = registry.create(4, 2_500, 300, 100, 1, key(1), key(2)).unwrap();
    assert_eq!(
        registry.create(4, 100, 50, 50, 2, key(3), key(4)),
        Err(ErrorCode::InvalidIndex)
    );
    // the number is looked at before the rates
    assert_eq!(
        registry.create(4, 1_000_000, 0, 0, 2, key(3), key(4)),
        Err(ErrorCode::InvalidIndex)
    );
    assert_eq!(
        registry.create(5, 1_000_000, 0, 0, 2, key(3), key(4)),
        Err(ErrorCode::InvalidFeeRate)
    );
    assert_eq!(registry.len(), 1);
    assert_eq!(registry.get(4), Some(a));
    assert_eq!(registry.get(5), None);
}

#[test]
fn registry_update_touches_one_tier_only() {
    let mut registry = ConfigRegistry::new();
    let a = registry.create(0, 2_500, 300, 100, 1, key(1), key(2)).unwrap();
    let b = registry.create(1, 100, 50, 50, 2, key(3), key(4)).unwrap();
    assert_eq!(registry.update(&key(3), 1, ConfigUpdate::TradeFeeRate(200)), Ok(()));
    assert_eq!(registry.get(0), Some(a));
    assert_eq!(registry.get(1), Some(AmmConfig { trade_fee_rate: 200, ..b }));
    assert_eq!(
        registry.update(&key(3), 2, ConfigUpdate::TradeFeeRate(200)),
        Err(ErrorCode::InvalidIndex)
    );
    assert_eq!(
        registry.update(&key(1), 1, ConfigUpdate::TradeFeeRate(300)),
        Err(ErrorCode::Unauthorized)
    );
    assert_eq!(
        registry.update(&key(3), 1, ConfigUpdate::TradeFeeRate(99)),
        Err(ErrorCode::InvalidFeeRate)
    );
    assert_eq!(registry.get(1), Some(AmmConfig { trade_fee_rate: 200, ..b }));
    assert_eq!(registry.len(), 2);
}

#[test]
fn record_lengths() {
    assert_eq!(AmmConfig::LEN, 236);
    assert_eq!(pool_ledger::pool::PoolState::LEN, 637);
    assert_eq!(pool_ledger::oracle::Observation::LEN, 40);
    assert_eq!(pool_ledger::oracle::ObservationState::LEN, 4075);
}

#[test]
fn every_error_has_its_family() {
    assert_eq!(ErrorCode::InvalidIndex.kind(), ErrorKind::Validation);
    assert_eq!(ErrorCode::InvalidFeeRate.kind(), ErrorKind::Validation);
    assert_eq!(ErrorCode::InvalidMintOrder.kind(), ErrorKind::Validation);
    assert_eq!(ErrorCode::ZeroLiquidity.kind(), ErrorKind::Validation);
    assert_eq!(ErrorCode::InsufficientLiquidity.kind(), ErrorKind::Validation);
    assert_eq!(ErrorCode::InsufficientBalance.kind(), ErrorKind::Validation);
    assert_eq!(ErrorCode::NothingToCollect.kind(), ErrorKind::Validation);
    assert_eq!(ErrorCode::Unauthorized.kind(), ErrorKind::Authorization);
    assert_eq!(ErrorCode::NotApproved.kind(), ErrorKind::State);
    assert_eq!(ErrorCode::PoolDisabled.kind(), ErrorKind::State);
    assert_eq!(ErrorCode::PoolNotOpen.kind(), ErrorKind::State);
    assert_eq!(ErrorCode::ArithmeticOverflow.kind(), ErrorKind::Arithmetic);
    assert_eq!(ErrorCode::ArithmeticUnderflow.kind(), ErrorKind::Arithmetic);
    assert_eq!(ErrorCode::SlippageExceeded.kind(), ErrorKind::Slippage);
    assert!(ErrorCode::SlippageExceeded.is_retryable());
    assert!(!ErrorCode::PoolDisabled.is_retryable());
    assert!(!ErrorCode::ArithmeticUnderflow.is_retryable());
}

#[test]
fn addresses_are_told_apart_and_ordered_by_bytes() {
    let zero = Address::zero();
    assert_eq!(zero.to_bytes(), [0u8; 32]);
    assert!(zero.same(&Address::new([0u8; 32])));
    assert!(!zero.same(&key(1)));
    assert!(!zero.precedes(&zero));
    assert!(zero.precedes(&key(1)));
    assert!(!key(1).precedes(&zero));
    let mut low_then_high = [0u8; 32];
    low_then_high[0] = 1;
    low_then_high[31] = 255;
    let mut high_then_low = [0u8; 32];
    high_then_low[0] = 2;
    // the first byte that differs decides
    assert!(Address::new(low_then_high).precedes(&Address::new(high_then_low)));
    assert!(!Address::new(high_then_low).precedes(&Address::new(low_then_high)));
    let mut last = [0u8; 32];
    last[31] = 1;
    assert!(zero.precedes(&Address::new(last)));
    assert!(!Address::new(last).same(&zero));
    // byte order agrees with the order that the type carries
    assert!(Address::new(low_then_high) < Address::new(high_then_low));
}

#[test]
fn products_are_divided_in_128_bits() {
    assert_eq!(mul_div_floor_u64(7, 3, 2), 10);
    assert_eq!(mul_div_ceil_u64(7, 3, 2), 11);
    assert_eq!(mul_div_floor_u64(8, 3, 2), 12);
    assert_eq!(mul_div_ceil_u64(8, 3, 2), 12);
    assert_eq!(mul_div_floor_u64(0, 3, 2), 0);
    assert_eq!(mul_div_ceil_u64(0, 3, 2), 0);
    assert_eq!(
        mul_div_floor_u64(u64::MAX, u64::MAX, 1),
        u64::MAX as u128 * u64::MAX as u128
    );
    assert_eq!(
        mul_div_ceil_u64(u64::MAX, u64::MAX, u64::MAX),
        u64::MAX as u128
    );
    assert_eq!(mul_div_ceil_u64(u64::MAX, u64::MAX, u64::MAX - 1), u64::MAX as u128 + 2);
    assert_eq!(mul_div_floor_u64(u64::MAX, u64::MAX, u64::MAX - 1), u64::MAX as u128 + 1);
}
