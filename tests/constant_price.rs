use token_swap::curve::calculator::{RoundDirection, SwapWithoutFeesResult, TradeDirection};
use token_swap::curve::constant_price::{trading_tokens_to_pool_tokens, ConstantPriceCurve};
use token_swap::error::SwapError;

#[test]
fn swap_calculation_no_price() {
    let swap_source_amount: u128 = 0;
    let swap_destination_amount: u128 = 0;
    let source_amount: u128 = 100;
    let token_b_price = 1;
    let curve = ConstantPriceCurve { token_b_price };

    let expected_result = SwapWithoutFeesResult {
        source_amount_swapped: source_amount,
        destination_amount_swapped: source_amount,
    };

    let result = curve
        .swap_without_fees(
            source_amount,
            swap_source_amount,
            swap_destination_amount,
            TradeDirection::AtoB,
        )
        .unwrap();
    assert_eq!(result, expected_result);

    let result = curve
        .swap_without_fees(
            source_amount,
            swap_source_amount,
            swap_destination_amount,
            TradeDirection::BtoA,
        )
        .unwrap();
    assert_eq!(result, expected_result);
}

#[test]
fn pack_flat_curve() {
    let token_b_price = 1_251_258;
    let curve = ConstantPriceCurve { token_b_price };

    let packed = curve.pack();
    let unpacked = ConstantPriceCurve::unpack(&packed).unwrap();
    assert_eq!(curve, unpacked);

    let mut packed = vec![];
    packed.extend_from_slice(&token_b_price.to_le_bytes());
    let unpacked = ConstantPriceCurve::unpack(&packed).unwrap();
    assert_eq!(curve, unpacked);
}

#[test]
fn swap_calculation_large_price() {
    let token_b_price = 1123513u128;
    let curve = ConstantPriceCurve {
        token_b_price: token_b_price as u64,
    };
    let token_b_amount = 500u128;
    let token_a_amount = token_b_amount * token_b_price;
    let bad_result = curve.swap_without_fees(
        token_b_price - 1u128,
        token_a_amount,
        token_b_amount,
        TradeDirection::AtoB,
    );
    assert!(bad_result.is_none());
    let bad_result =
        curve.swap_without_fees(1u128, token_a_amount, token_b_amount, TradeDirection::AtoB);
    assert!(bad_result.is_none());
    let result = curve
        .swap_without_fees(
            token_b_price,
            token_a_amount,
            token_b_amount,
            TradeDirection::AtoB,
        )
        .unwrap();
    assert_eq!(result.source_amount_swapped, token_b_price);
    assert_eq!(result.destination_amount_swapped, 1u128);
}

#[test]
fn swap_calculation_max_min() {
    let token_b_price = u64::MAX as u128;
    let curve = ConstantPriceCurve {
        token_b_price: token_b_price as u64,
    };
    let token_b_amount = 1u128;
    let token_a_amount = token_b_price;
    let bad_result = curve.swap_without_fees(
        token_b_price - 1u128,
        token_a_amount,
        token_b_amount,
        TradeDirection::AtoB,
    );
    assert!(bad_result.is_none());
    let bad_result =
        curve.swap_without_fees(1u128, token_a_amount, token_b_amount, TradeDirection::AtoB);
    assert!(bad_result.is_none());
    let bad_result =
        curve.swap_without_fees(0u128, token_a_amount, token_b_amount, TradeDirection::AtoB);
    assert!(bad_result.is_none());
    let result = curve
        .swap_without_fees(
            token_b_price,
            token_a_amount,
            token_b_amount,
            TradeDirection::AtoB,
        )
        .unwrap();
    assert_eq!(result.source_amount_swapped, token_b_price);
    assert_eq!(result.destination_amount_swapped, 1u128);
}

#[test]
fn constant_price_swap_keeps_remainder_with_trader() {
    let curve = ConstantPriceCurve { token_b_price: 3 };
    let result = curve
        .swap_without_fees(10, 0, 0, TradeDirection::AtoB)
        .unwrap();
    assert_eq!(result.source_amount_swapped, 9);
    assert_eq!(result.destination_amount_swapped, 3);
    let result = curve
        .swap_without_fees(10, 0, 0, TradeDirection::BtoA)
        .unwrap();
    assert_eq!(result.source_amount_swapped, 10);
    assert_eq!(result.destination_amount_swapped, 30);
    assert!(ConstantPriceCurve { token_b_price: 0 }
        .swap_without_fees(10, 0, 0, TradeDirection::AtoB)
        .is_none());
}

#[test]
fn constant_price_normalized_value_and_conversion() {
    let curve = ConstantPriceCurve { token_b_price: 2 };
    // (100 + 50 * 2) / 2 = 100
    let value = curve.normalized_value(100, 50).unwrap();
    assert_eq!(value.to_u128(), Some(100));
    // 10 of 100 pool tokens: 10 * 100 / 100 = 10 of A, 10 * 100 / 2 / 100 = 5 of B
    let floor = curve
        .pool_tokens_to_trading_tokens(10, 100, 100, 50, RoundDirection::Floor)
        .unwrap();
    assert_eq!((floor.token_a_amount, floor.token_b_amount), (10, 5));
    // 7 of 100: 700 / 100 = 7 exactly; 700 / 2 = 350, 350 / 100 = 3.5 rounds up to 4
    let ceiling = curve
        .pool_tokens_to_trading_tokens(7, 100, 100, 50, RoundDirection::Ceiling)
        .unwrap();
    assert_eq!((ceiling.token_a_amount, ceiling.token_b_amount), (7, 4));
}

#[test]
fn constant_price_normalized_value_halves_near_the_ceiling() {
    let curve = ConstantPriceCurve { token_b_price: 1 };
    let value = curve.normalized_value(u128::MAX, 1).unwrap();
    // the sum overflows, so each part is halved first
    assert_eq!(value.to_u128(), Some(u128::MAX / 2));
    assert!(ConstantPriceCurve { token_b_price: 2 }
        .normalized_value(0, u128::MAX)
        .is_none());
}

#[test]
fn trading_tokens_to_pool_tokens_by_value() {
    // total value 100 + 50 * 2 = 200; depositing 20 of A is a tenth of it
    assert_eq!(
        trading_tokens_to_pool_tokens(2, 20, 100, 50, 1000, TradeDirection::AtoB, RoundDirection::Floor),
        Some(100)
    );
    // 10 of B is worth 20 of A
    assert_eq!(
        trading_tokens_to_pool_tokens(2, 10, 100, 50, 1000, TradeDirection::BtoA, RoundDirection::Floor),
        Some(100)
    );
    // 1 of A is 1000 / 200 = 5 pool tokens exactly; 3 of A is 15
    assert_eq!(
        trading_tokens_to_pool_tokens(2, 3, 100, 50, 1000, TradeDirection::AtoB, RoundDirection::Ceiling),
        Some(15)
    );
    // 1 of A out of a total of 3 is 333.3 pool tokens
    assert_eq!(
        trading_tokens_to_pool_tokens(1, 1, 1, 2, 1000, TradeDirection::AtoB, RoundDirection::Floor),
        Some(333)
    );
    assert_eq!(
        trading_tokens_to_pool_tokens(1, 1, 1, 2, 1000, TradeDirection::AtoB, RoundDirection::Ceiling),
        Some(334)
    );
    // a pool worth nothing cannot price a deposit
    assert_eq!(
        trading_tokens_to_pool_tokens(1, 1, 0, 0, 1000, TradeDirection::AtoB, RoundDirection::Floor),
        None
    );
    // a result past 128 bits is refused rather than truncated
    assert_eq!(
        trading_tokens_to_pool_tokens(
            u64::MAX,
            u128::MAX,
            1,
            0,
            u128::MAX,
            TradeDirection::BtoA,
            RoundDirection::Floor
        ),
        None
    );
}

#[test]
fn constant_price_validation() {
    assert_eq!(ConstantPriceCurve { token_b_price: 0 }.validate(), Err(SwapError::InvalidCurve));
    assert_eq!(ConstantPriceCurve { token_b_price: 1 }.validate(), Ok(()));
    assert_eq!(
        ConstantPriceCurve { token_b_price: 1 }.validate_supply(0, 10),
        Err(SwapError::EmptySupply)
    );
    assert_eq!(ConstantPriceCurve { token_b_price: 1 }.validate_supply(10, 0), Ok(()));
}
