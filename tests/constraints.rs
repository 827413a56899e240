use token_swap::constraints::SwapConstraints;
use token_swap::curve::base::{CurveCalculator, CurveType, SwapCurve};
use token_swap::curve::constant_product::ConstantProductCurve;
use token_swap::curve::fees::Fees;
use token_swap::error::SwapError;

#[test]
fn validate_fees() {
    let trade_fee_numerator = 1;
    let trade_fee_denominator = 4;
    let owner_trade_fee_numerator = 2;
    let owner_trade_fee_denominator = 5;
    let owner_withdraw_fee_numerator = 4;
    let owner_withdraw_fee_denominator = 10;
    let host_fee_numerator = 10;
    let host_fee_denominator = 100;
    let owner_key = Some("");
    let curve_type = CurveType::ConstantProduct;
    let valid_fees = Fees {
        trade_fee_numerator,
        trade_fee_denominator,
        owner_trade_fee_numerator,
        owner_trade_fee_denominator,
        owner_withdraw_fee_numerator,
        owner_withdraw_fee_denominator,
        host_fee_numerator,
        host_fee_denominator,
    };
    let calculator = ConstantProductCurve {};
    let swap_curve = SwapCurve {
        calculator: CurveCalculator::ConstantProduct(calculator.clone()),
    };
    let constraints = SwapConstraints {
        owner_key,
        valid_curve_types: &[curve_type],
        fees: &valid_fees,
    };

    constraints.validate_curve(&swap_curve).unwrap();
    constraints.validate_fees(&valid_fees).unwrap();

    let mut fees = valid_fees.clone();
    fees.trade_fee_numerator = trade_fee_numerator - 1;
    assert_eq!(Err(SwapError::InvalidFee), constraints.validate_fees(&fees));
    fees.trade_fee_numerator = trade_fee_numerator;

    fees.trade_fee_numerator = trade_fee_numerator - 1;
    assert_eq!(constraints.validate_fees(&valid_fees), Ok(()));
    fees.trade_fee_numerator = trade_fee_numerator;

    fees.trade_fee_denominator = trade_fee_denominator - 1;
    assert_eq!(Err(SwapError::InvalidFee), constraints.validate_fees(&fees));
    fees.trade_fee_denominator = trade_fee_denominator;

    fees.trade_fee_denominator = trade_fee_denominator + 1;
    assert_eq!(Err(SwapError::InvalidFee), constraints.validate_fees(&fees));
    fees.trade_fee_denominator = trade_fee_denominator;

    fees.owner_trade_fee_numerator = owner_trade_fee_numerator - 1;
    assert_eq!(Err(SwapError::InvalidFee), constraints.validate_fees(&fees));
    fees.owner_trade_fee_numerator = owner_trade_fee_numerator;

    fees.owner_trade_fee_numerator = owner_trade_fee_numerator - 1;
    assert_eq!(constraints.validate_fees(&valid_fees), Ok(()));
    fees.owner_trade_fee_numerator = owner_trade_fee_numerator;

    fees.owner_trade_fee_denominator = owner_trade_fee_denominator - 1;
    assert_eq!(Err(SwapError::InvalidFee), constraints.validate_fees(&fees));
    fees.owner_trade_fee_denominator = owner_trade_fee_denominator;

    let swap_curve = SwapCurve {
        calculator: CurveCalculator::ConstantProduct(calculator),
    };
    let swap_curve = SwapCurve {
        calculator: match swap_curve.calculator {
            CurveCalculator::ConstantProduct(_) => CurveCalculator::ConstantPrice(
                token_swap::curve::constant_price::ConstantPriceCurve { token_b_price: 0 },
            ),
            other => other,
        },
    };
    assert_eq!(
        Err(SwapError::UnsupportedCurveType),
        constraints.validate_curve(&swap_curve),
    );
}

#[test]
fn validate_fees_checks_host_fee_exactly() {
    let fees = Fees {
        trade_fee_numerator: 0,
        trade_fee_denominator: 10000,
        owner_trade_fee_numerator: 5,
        owner_trade_fee_denominator: 10000,
        owner_withdraw_fee_numerator: 0,
        owner_withdraw_fee_denominator: 0,
        host_fee_numerator: 20,
        host_fee_denominator: 100,
    };
    let constraints = SwapConstraints {
        owner_key: None,
        valid_curve_types: &[CurveType::ConstantPrice, CurveType::ConstantProduct],
        fees: &fees,
    };
    let mut higher_host = fees;
    higher_host.host_fee_numerator = 21;
    assert_eq!(constraints.validate_fees(&higher_host), Err(SwapError::InvalidFee));
    let offset = SwapCurve {
        calculator: CurveCalculator::Offset(token_swap::curve::offset::OffsetCurve {
            token_b_offset: 1,
        }),
    };
    assert_eq!(constraints.validate_curve(&offset), Err(SwapError::UnsupportedCurveType));
}
