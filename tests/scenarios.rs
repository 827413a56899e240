use token_swap::curve::base::{CurveCalculator, SwapCurve};
use token_swap::curve::calculator::{map_zero_to_none, RoundDirection, TradeDirection};
use token_swap::curve::constant_price::ConstantPriceCurve;
use token_swap::curve::constant_product::{
    deposit_pool_tokens_from_root, pool_tokens_for_fraction, withdraw_pool_tokens_from_root,
    ConstantProductCurve,
};
use token_swap::curve::fees::Fees;
use token_swap::curve::offset::OffsetCurve;
use token_swap::curve::precise::FixedPointNumber;
use token_swap::curve::wide::Uint256;
use token_swap::error::SwapError;
use token_swap::processor::{PoolState, Processor};

const ONE: u128 = 1_000_000_000_000;

fn fixed(scaled: u128) -> FixedPointNumber {
    FixedPointNumber {
        value: Uint256 {
            w0: scaled as u64,
            w1: (scaled >> 64) as u64,
            w2: 0,
            w3: 0,
        },
    }
}

fn no_fees() -> Fees {
    Fees {
        trade_fee_numerator: 0,
        trade_fee_denominator: 0,
        owner_trade_fee_numerator: 0,
        owner_trade_fee_denominator: 0,
        owner_withdraw_fee_numerator: 0,
        owner_withdraw_fee_denominator: 0,
        host_fee_numerator: 0,
        host_fee_denominator: 0,
    }
}

#[test]
fn trade_direction_opposite() {
    assert_eq!(TradeDirection::AtoB.opposite(), TradeDirection::BtoA);
    assert_eq!(TradeDirection::BtoA.opposite(), TradeDirection::AtoB);
    assert_eq!(map_zero_to_none(0), None);
    assert_eq!(map_zero_to_none(7), Some(7));
}

#[test]
fn too_small_a_swap_moves_nothing() {
    let curve = ConstantProductCurve;
    assert!(curve
        .swap_without_fees(10, 70_000_000_000, 4_000_000, TradeDirection::AtoB)
        .is_none());
    let result = curve
        .swap_without_fees(10, 4_000_000, 70_000_000_000, TradeDirection::AtoB)
        .unwrap();
    assert_eq!(result.source_amount_swapped, 10);
    assert_eq!(result.destination_amount_swapped, 174_999);
}

#[test]
fn constant_price_one_to_one() {
    let curve = ConstantPriceCurve { token_b_price: 1 };
    let result = curve.swap_without_fees(100, 0, 0, TradeDirection::AtoB).unwrap();
    assert_eq!(
        (result.source_amount_swapped, result.destination_amount_swapped),
        (100, 100)
    );
}

#[test]
fn pool_token_conversion_rounds_up() {
    let result = ConstantProductCurve
        .pool_tokens_to_trading_tokens(5, 10, 2, 49, RoundDirection::Ceiling)
        .unwrap();
    assert_eq!((result.token_a_amount, result.token_b_amount), (1, 25));
}

#[test]
fn fee_validation_example() {
    let mut fees = no_fees();
    fees.trade_fee_numerator = 1;
    fees.trade_fee_denominator = 4;
    assert_eq!(fees.validate(), Ok(()));
    fees.trade_fee_numerator = 4;
    assert_eq!(fees.validate(), Err(SwapError::InvalidFee));
}

#[test]
fn offset_curve_forbids_single_sided_deposits() {
    let calculator = CurveCalculator::Offset(OffsetCurve { token_b_offset: 10 });
    assert!(!calculator.allows_deposits());
    let state = PoolState {
        is_initialized: true,
        token_a_amount: 1_000,
        token_b_amount: 0,
        pool_supply: 1_000,
        fees: no_fees(),
        swap_curve: SwapCurve { calculator },
    };
    assert_eq!(
        Processor::process_deposit_single_token_type_exact_amount_in(&state, 100, 0, TradeDirection::AtoB),
        Err(SwapError::UnsupportedCurveOperation)
    );
    assert!(CurveCalculator::ConstantProduct(ConstantProductCurve).allows_deposits());
}

#[test]
fn swaps_never_lower_the_curve_level() {
    // constant product
    let (s, d) = (1_000_000u128, 3_000_000u128);
    let r = ConstantProductCurve
        .swap_without_fees(12_345, s, d, TradeDirection::AtoB)
        .unwrap();
    assert!((s + r.source_amount_swapped) * (d - r.destination_amount_swapped) >= s * d);
    // constant price: value in token A is unchanged
    let price = 7u128;
    let curve = ConstantPriceCurve { token_b_price: 7 };
    let r = curve.swap_without_fees(100, 500, 90, TradeDirection::AtoB).unwrap();
    assert_eq!(
        (500 + r.source_amount_swapped) + (90 - r.destination_amount_swapped) * price,
        500 + 90 * price
    );
    // offset: the product with the offset added to token B
    let offset = OffsetCurve { token_b_offset: 1_000 };
    let r = offset
        .swap_without_fees(50, 0, 2_000, TradeDirection::BtoA)
        .unwrap();
    assert!((2_000 - r.destination_amount_swapped) * (0 + r.source_amount_swapped + 1_000) >= 2_000 * 1_000);
}

#[test]
fn deposits_and_withdrawals_never_dilute_pool_tokens() {
    let (a, b, supply, p) = (1_234_567u128, 7_654_321u128, 1_000_003u128, 33_333u128);
    let d = ConstantProductCurve
        .pool_tokens_to_trading_tokens(p, supply, a, b, RoundDirection::Ceiling)
        .unwrap();
    assert!((a + d.token_a_amount) * supply >= a * (supply + p));
    assert!((b + d.token_b_amount) * supply >= b * (supply + p));
    let w = ConstantProductCurve
        .pool_tokens_to_trading_tokens(p, supply, a, b, RoundDirection::Floor)
        .unwrap();
    assert!((a - w.token_a_amount) * supply >= a * (supply - p));
    assert!((b - w.token_b_amount) * supply >= b * (supply - p));
}

#[test]
fn ceiling_never_below_floor() {
    let curves = [
        CurveCalculator::ConstantProduct(ConstantProductCurve),
        CurveCalculator::ConstantPrice(ConstantPriceCurve { token_b_price: 3 }),
        CurveCalculator::Offset(OffsetCurve { token_b_offset: 5 }),
    ];
    for calculator in curves.iter() {
        for (p, supply, a, b) in [(7u128, 100u128, 1_000u128, 333u128), (1, 1_000, 3, 3), (50, 51, 99, 101)] {
            let floor = calculator.pool_tokens_to_trading_tokens(p, supply, a, b, RoundDirection::Floor);
            let ceiling = calculator.pool_tokens_to_trading_tokens(p, supply, a, b, RoundDirection::Ceiling);
            if let (Some(f), Some(c)) = (floor, ceiling) {
                assert!(c.token_a_amount >= f.token_a_amount);
                assert!(c.token_b_amount >= f.token_b_amount);
                if f.token_a_amount == 0 {
                    assert_eq!(c.token_a_amount, 0);
                }
            }
        }
    }
}

fn check_deposit_token_conversion(
    curve: &CurveCalculator,
    source_token_amount: u128,
    swap_source_amount: u128,
    swap_destination_amount: u128,
    trade_direction: TradeDirection,
    pool_supply: u128,
    epsilon_in_basis_points: u128,
) {
    let amount_to_swap = source_token_amount / 2;
    let results = curve
        .swap_without_fees(
            amount_to_swap,
            swap_source_amount,
            swap_destination_amount,
            trade_direction,
        )
        .unwrap();
    let opposite_direction = trade_direction.opposite();
    let (swap_token_a_amount, swap_token_b_amount) = match trade_direction {
        TradeDirection::AtoB => (swap_source_amount, swap_destination_amount),
        TradeDirection::BtoA => (swap_destination_amount, swap_source_amount),
    };
    let pool_tokens_from_one_side = curve
        .deposit_single_token_type(
            source_token_amount,
            swap_token_a_amount,
            swap_token_b_amount,
            pool_supply,
            trade_direction,
        )
        .unwrap();
    let (swap_token_a_amount, swap_token_b_amount) = match trade_direction {
        TradeDirection::AtoB => (
            swap_source_amount + results.source_amount_swapped,
            swap_destination_amount - results.destination_amount_swapped,
        ),
        TradeDirection::BtoA => (
            swap_destination_amount - results.destination_amount_swapped,
            swap_source_amount + results.source_amount_swapped,
        ),
    };
    let pool_tokens_from_source = curve
        .deposit_single_token_type(
            source_token_amount - results.source_amount_swapped,
            swap_token_a_amount,
            swap_token_b_amount,
            pool_supply,
            trade_direction,
        )
        .unwrap();
    let pool_tokens_from_destination = curve
        .deposit_single_token_type(
            results.destination_amount_swapped,
            swap_token_a_amount,
            swap_token_b_amount,
            pool_supply + pool_tokens_from_source,
            opposite_direction,
        )
        .unwrap();
    let pool_tokens_total_separate = pool_tokens_from_source + pool_tokens_from_destination;
    let epsilon = std::cmp::max(1, pool_tokens_total_separate * epsilon_in_basis_points / 10000);
    let difference = if pool_tokens_from_one_side >= pool_tokens_total_separate {
        pool_tokens_from_one_side - pool_tokens_total_separate
    } else {
        pool_tokens_total_separate - pool_tokens_from_one_side
    };
    assert!(difference <= epsilon, "difference {} above {}", difference, epsilon);
}

#[test]
fn single_sided_deposit_matches_swap_then_deposit() {
    let curve = CurveCalculator::ConstantProduct(ConstantProductCurve);
    for (amount, source, destination) in [
        (1_000_000u128, 1_000_000_000u128, 1_000_000_000u128),
        (50_000, 3_000_000, 7_000_000),
        (123_456_789, 987_654_321, 55_555_555_555),
    ] {
        check_deposit_token_conversion(&curve, amount, source, destination, TradeDirection::AtoB, 1_000_000_000, 50);
        check_deposit_token_conversion(&curve, amount, source, destination, TradeDirection::BtoA, 1_000_000_000, 50);
    }
}

#[test]
fn pool_tokens_from_a_square_root() {
    // root 1.5: half the supply again
    assert_eq!(
        deposit_pool_tokens_from_root(&fixed(3 * ONE / 2), 1_000, RoundDirection::Floor),
        Some(500)
    );
    // a root below one cannot come from a deposit
    assert_eq!(deposit_pool_tokens_from_root(&fixed(ONE / 2), 1_000, RoundDirection::Floor), None);
    // root 0.75: a quarter of the supply is burnt
    assert_eq!(
        withdraw_pool_tokens_from_root(&fixed(3 * ONE / 4), 1_000, RoundDirection::Floor),
        Some(250)
    );
    assert_eq!(withdraw_pool_tokens_from_root(&fixed(2 * ONE), 1_000, RoundDirection::Floor), None);
    // a third of 10 pool tokens: 3.33 rounds to 3 or 4
    assert_eq!(pool_tokens_for_fraction(&fixed(ONE / 3), 10, RoundDirection::Floor), Some(3));
    assert_eq!(pool_tokens_for_fraction(&fixed(ONE / 3), 10, RoundDirection::Ceiling), Some(4));
}

#[test]
fn normalized_value_does_not_fall_on_a_swap() {
    let curves = [
        CurveCalculator::ConstantProduct(ConstantProductCurve),
        CurveCalculator::ConstantPrice(ConstantPriceCurve { token_b_price: 3 }),
        CurveCalculator::Offset(OffsetCurve { token_b_offset: 1_000_000 }),
    ];
    for calculator in curves.iter() {
        let (source, destination) = (5_000_000u128, 9_000_000u128);
        let r = calculator
            .swap_without_fees(30_001, source, destination, TradeDirection::AtoB)
            .unwrap();
        let before = calculator.normalized_value(source, destination).unwrap();
        let after = calculator
            .normalized_value(
                source + r.source_amount_swapped,
                destination - r.destination_amount_swapped,
            )
            .unwrap();
        assert!(after.greater_than_or_equal(&before));
        assert!(!after.less_than(&before));
        // within one token of the value before
        let (b, a) = (before.to_u128().unwrap(), after.to_u128().unwrap());
        assert!(a - b <= 1);
    }
}

#[test]
fn constant_price_deposits_and_withdrawals_keep_value_per_pool_token() {
    let curve = ConstantPriceCurve { token_b_price: 3 };
    let (a, b, supply, p) = (1_000_001u128, 333_333u128, 1_000_000_007u128, 12_345_678u128);
    let value = curve.normalized_value(a, b).unwrap().to_u128().unwrap();
    let d = curve
        .pool_tokens_to_trading_tokens(p, supply, a, b, RoundDirection::Ceiling)
        .unwrap();
    let after = curve
        .normalized_value(a + d.token_a_amount, b + d.token_b_amount)
        .unwrap()
        .to_u128()
        .unwrap();
    assert!(after * supply >= value * (supply + p));
    let w = curve
        .pool_tokens_to_trading_tokens(p, supply, a, b, RoundDirection::Floor)
        .unwrap();
    let after = curve
        .normalized_value(a - w.token_a_amount, b - w.token_b_amount)
        .unwrap()
        .to_u128()
        .unwrap();
    assert!(after * supply >= value * (supply - p));
}
