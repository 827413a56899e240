use token_swap::constraints::SwapConstraints;
use token_swap::curve::base::{CurveCalculator, CurveType, SwapCurve};
use token_swap::curve::calculator::{TradeDirection, INITIAL_SWAP_POOL_AMOUNT};
use token_swap::curve::constant_price::ConstantPriceCurve;
use token_swap::curve::constant_product::ConstantProductCurve;
use token_swap::curve::fees::Fees;
use token_swap::curve::offset::OffsetCurve;
use token_swap::error::SwapError;
use token_swap::processor::{PoolState, Processor};

fn fees(trade: (u64, u64), owner_trade: (u64, u64), withdraw: (u64, u64), host: (u64, u64)) -> Fees {
    Fees {
        trade_fee_numerator: trade.0,
        trade_fee_denominator: trade.1,
        owner_trade_fee_numerator: owner_trade.0,
        owner_trade_fee_denominator: owner_trade.1,
        owner_withdraw_fee_numerator: withdraw.0,
        owner_withdraw_fee_denominator: withdraw.1,
        host_fee_numerator: host.0,
        host_fee_denominator: host.1,
    }
}

fn no_fees() -> Fees {
    fees((0, 0), (0, 0), (0, 0), (0, 0))
}

fn product() -> SwapCurve {
    SwapCurve {
        calculator: CurveCalculator::ConstantProduct(ConstantProductCurve),
    }
}

fn offset() -> SwapCurve {
    SwapCurve {
        calculator: CurveCalculator::Offset(OffsetCurve {
            token_b_offset: 1_000,
        }),
    }
}

fn pool(a: u64, b: u64, supply: u64, fees: Fees, swap_curve: SwapCurve) -> PoolState {
    PoolState {
        is_initialized: true,
        token_a_amount: a,
        token_b_amount: b,
        pool_supply: supply,
        fees,
        swap_curve,
    }
}

#[test]
fn initialize_checks_in_order_and_mints_the_initial_supply() {
    let valid = fees((1, 4), (0, 0), (0, 0), (0, 0));
    assert_eq!(
        Processor::process_initialize(valid, product(), 10, 10, true, &None),
        Err(SwapError::AlreadyInUse)
    );
    assert_eq!(
        Processor::process_initialize(valid, product(), 10, 0, false, &None),
        Err(SwapError::EmptySupply)
    );
    assert_eq!(
        Processor::process_initialize(valid, offset(), 0, 10, false, &None),
        Err(SwapError::EmptySupply)
    );
    let price = SwapCurve {
        calculator: CurveCalculator::ConstantPrice(ConstantPriceCurve { token_b_price: 0 }),
    };
    assert_eq!(
        Processor::process_initialize(valid, price, 10, 0, false, &None),
        Err(SwapError::InvalidCurve)
    );
    let invalid = fees((4, 4), (0, 0), (0, 0), (0, 0));
    assert_eq!(
        Processor::process_initialize(invalid, product(), 10, 10, false, &None),
        Err(SwapError::InvalidFee)
    );
    let state = Processor::process_initialize(valid, product(), 10, 20, false, &None).unwrap();
    assert!(state.is_initialized);
    assert_eq!(state.pool_supply as u128, INITIAL_SWAP_POOL_AMOUNT);
    assert_eq!((state.token_a_amount, state.token_b_amount), (10, 20));
    assert_eq!(state.fees, valid);
}

#[test]
fn initialize_applies_the_constraints() {
    let required = fees((1, 100), (0, 100), (0, 0), (0, 0));
    let constraints = Some(SwapConstraints {
        owner_key: None,
        valid_curve_types: &[CurveType::ConstantPrice],
        fees: &required,
    });
    assert_eq!(
        Processor::process_initialize(required, product(), 10, 10, false, &constraints),
        Err(SwapError::UnsupportedCurveType)
    );
    let price = SwapCurve {
        calculator: CurveCalculator::ConstantPrice(ConstantPriceCurve { token_b_price: 3 }),
    };
    let too_low = fees((0, 100), (0, 100), (0, 0), (0, 0));
    assert_eq!(
        Processor::process_initialize(too_low, price, 10, 10, false, &constraints),
        Err(SwapError::InvalidFee)
    );
    assert!(Processor::process_initialize(required, price, 10, 0, false, &constraints).is_ok());
}

#[test]
fn operations_need_an_initialized_pool() {
    let mut state = pool(1000, 1000, 100, no_fees(), product());
    state.is_initialized = false;
    assert_eq!(
        Processor::process_swap(&state, 10, 0, TradeDirection::AtoB, false),
        Err(SwapError::NotInitialized)
    );
    assert_eq!(
        Processor::process_deposit_all_token_types(&state, 10, 100, 100),
        Err(SwapError::NotInitialized)
    );
    assert_eq!(
        Processor::process_withdraw_all_token_types(&state, 10, 0, 0, false),
        Err(SwapError::NotInitialized)
    );
    assert_eq!(
        Processor::process_deposit_single_token_type_exact_amount_in(&state, 10, 0, TradeDirection::AtoB),
        Err(SwapError::NotInitialized)
    );
    assert_eq!(
        Processor::process_withdraw_single_token_type_exact_amount_out(
            &state,
            10,
            100,
            TradeDirection::AtoB,
            false
        ),
        Err(SwapError::NotInitialized)
    );
}

#[test]
fn swap_takes_fees_before_the_curve() {
    let state = pool(1_000_000, 1_000_000, 1_000_000, fees((1, 100), (1, 100), (0, 0), (0, 0)), product());
    let outcome = Processor::process_swap(&state, 10_000, 9_705, TradeDirection::AtoB, false).unwrap();
    // trade fee 100, owner fee 1% of the remaining 9900 = 99, curve swaps 9801
    assert_eq!(outcome.result.trade_fee, 100);
    assert_eq!(outcome.result.owner_fee, 99);
    assert_eq!(outcome.amount_in, 10_000);
    assert_eq!(outcome.amount_out, 9_705);
    assert_eq!(outcome.result.new_swap_source_amount, 1_010_000);
    assert_eq!(outcome.result.new_swap_destination_amount, 990_295);
    assert!(outcome.owner_pool_tokens > 0);
    assert_eq!(outcome.host_pool_tokens, 0);
    assert_eq!(
        Processor::process_swap(&state, 10_000, 9_706, TradeDirection::AtoB, false),
        Err(SwapError::ExceededSlippage)
    );
    assert_eq!(
        Processor::process_swap(&state, 1, 0, TradeDirection::BtoA, false),
        Err(SwapError::ZeroTradingTokens)
    );
}

#[test]
fn swap_gives_the_host_its_share_of_the_owner_fee() {
    let state = pool(
        1_000_000,
        1_000_000,
        1_000_000_000,
        fees((0, 0), (1, 10), (0, 0), (1, 5)),
        product(),
    );
    let without_host = Processor::process_swap(&state, 10_000, 0, TradeDirection::BtoA, false).unwrap();
    let with_host = Processor::process_swap(&state, 10_000, 0, TradeDirection::BtoA, true).unwrap();
    assert_eq!(with_host.amount_out, without_host.amount_out);
    assert!(with_host.host_pool_tokens > 0);
    assert_eq!(
        with_host.owner_pool_tokens + with_host.host_pool_tokens,
        without_host.owner_pool_tokens
    );
    assert_eq!(
        with_host.host_pool_tokens as u128,
        state.fees.host_fee(without_host.owner_pool_tokens as u128).unwrap()
    );
}

#[test]
fn deposit_all_rounds_up_and_checks_limits() {
    let state = pool(1000, 2000, 100, no_fees(), product());
    assert_eq!(
        Processor::process_deposit_all_token_types(&state, 10, 100, 200),
        Ok((10, 100, 200))
    );
    assert_eq!(
        Processor::process_deposit_all_token_types(&state, 10, 99, 200),
        Err(SwapError::ExceededSlippage)
    );
    assert_eq!(
        Processor::process_deposit_all_token_types(&state, 10, 100, 199),
        Err(SwapError::ExceededSlippage)
    );
    assert_eq!(
        Processor::process_deposit_all_token_types(&state, 0, 100, 200),
        Err(SwapError::ZeroTradingTokens)
    );
    // the first deposit into an empty pool mints the initial supply
    let empty = pool(1000, 2000, 0, no_fees(), product());
    assert_eq!(
        Processor::process_deposit_all_token_types(&empty, 5, 1000, 2000),
        Ok((INITIAL_SWAP_POOL_AMOUNT as u64, 1000, 2000))
    );
    let no_deposits = pool(1000, 2000, 100, no_fees(), offset());
    assert_eq!(
        Processor::process_deposit_all_token_types(&no_deposits, 10, 100, 200),
        Err(SwapError::UnsupportedCurveOperation)
    );
}

#[test]
fn withdraw_all_takes_the_fee_first_and_rounds_down() {
    let state = pool(1000, 2000, 100, fees((0, 0), (0, 0), (1, 10), (0, 0)), product());
    assert_eq!(
        Processor::process_withdraw_all_token_types(&state, 10, 0, 0, false),
        Ok((90, 180, 1, 9))
    );
    assert_eq!(
        Processor::process_withdraw_all_token_types(&state, 10, 0, 0, true),
        Ok((100, 200, 0, 10))
    );
    assert_eq!(
        Processor::process_withdraw_all_token_types(&state, 10, 101, 0, true),
        Err(SwapError::ExceededSlippage)
    );
    assert_eq!(
        Processor::process_withdraw_all_token_types(&state, 10, 0, 201, true),
        Err(SwapError::ExceededSlippage)
    );
    // withdrawing more than the supply never pays out more than the reserves
    assert_eq!(
        Processor::process_withdraw_all_token_types(&state, 200, 0, 0, true),
        Ok((1000, 2000, 0, 200))
    );
    // a dust withdrawal that pays nothing fails
    assert_eq!(
        Processor::process_withdraw_all_token_types(&pool(5, 5, 100, no_fees(), product()), 1, 0, 0, true),
        Err(SwapError::ZeroTradingTokens)
    );
}

#[test]
fn deposit_single_mints_by_the_curve() {
    let state = pool(1_000_000_000, 1_000_000_000, 1_000_000_000, no_fees(), product());
    // 10^9 * (sqrt(1.002) - 1) = 999500.5
    assert_eq!(
        Processor::process_deposit_single_token_type_exact_amount_in(&state, 2_000_000, 0, TradeDirection::AtoB),
        Ok(999_500)
    );
    assert_eq!(
        Processor::process_deposit_single_token_type_exact_amount_in(
            &state,
            2_000_000,
            999_501,
            TradeDirection::AtoB
        ),
        Err(SwapError::ExceededSlippage)
    );
    let no_deposits = pool(1_000_000_000, 1_000_000_000, 1_000_000_000, no_fees(), offset());
    assert_eq!(
        Processor::process_deposit_single_token_type_exact_amount_in(
            &no_deposits,
            2_000_000,
            0,
            TradeDirection::AtoB
        ),
        Err(SwapError::UnsupportedCurveOperation)
    );
}

#[test]
fn withdraw_single_burns_by_the_curve_plus_the_fee() {
    let state = pool(1_000_000_000, 1_000_000_000, 1_000_000_000, fees((0, 0), (0, 0), (1, 10), (0, 0)), product());
    // 10^9 * (1 - sqrt(0.999)) = 500125.06, rounded up
    assert_eq!(
        Processor::process_withdraw_single_token_type_exact_amount_out(
            &state,
            1_000_000,
            u64::MAX,
            TradeDirection::AtoB,
            true
        ),
        Ok((500_126, 0))
    );
    assert_eq!(
        Processor::process_withdraw_single_token_type_exact_amount_out(
            &state,
            1_000_000,
            550_138,
            TradeDirection::AtoB,
            false
        ),
        Ok((500_126, 50_012))
    );
    assert_eq!(
        Processor::process_withdraw_single_token_type_exact_amount_out(
            &state,
            1_000_000,
            550_137,
            TradeDirection::AtoB,
            false
        ),
        Err(SwapError::ExceededSlippage)
    );
    assert_eq!(
        Processor::process_withdraw_single_token_type_exact_amount_out(
            &state,
            0,
            550_137,
            TradeDirection::AtoB,
            false
        ),
        Err(SwapError::ZeroTradingTokens)
    );
}

#[test]
fn withdraw_single_with_trading_fees_burns_at_least_as_much() {
    let free = pool(1_000_000_000, 1_000_000_000, 1_000_000_000, no_fees(), product());
    let charged = pool(
        1_000_000_000,
        1_000_000_000,
        1_000_000_000,
        fees((1, 100), (1, 100), (0, 0), (0, 0)),
        product(),
    );
    for amount in [1u64, 2, 3, 1_000, 1_000_000] {
        let (burn_free, _) = Processor::process_withdraw_single_token_type_exact_amount_out(
            &free,
            amount,
            u64::MAX,
            TradeDirection::AtoB,
            true,
        )
        .unwrap();
        let (burn_charged, _) = Processor::process_withdraw_single_token_type_exact_amount_out(
            &charged,
            amount,
            u64::MAX,
            TradeDirection::AtoB,
            true,
        )
        .unwrap();
        assert!(burn_charged >= burn_free);
    }
}
