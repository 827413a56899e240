//! The pool's curve: one of the curve variants, with the fee model applied
//! around it.

use crate::curve::calculator::{
    RoundDirection, SwapWithoutFeesResult, TradeDirection, TradingTokenResult,
    INITIAL_SWAP_POOL_AMOUNT,
};
use crate::curve::constant_price::{
    price_pool_tokens_of, price_swap_of, price_trading_tokens_of, price_value_of,
    ConstantPriceCurve,
};
use crate::curve::constant_product::{
    deposit_single_of, lemma_swap_keeps_product, normalized_value_of, swap_of, trading_tokens_of,
    withdraw_single_of, ConstantProductCurve,
};
use crate::curve::fees::Fees;
use crate::curve::offset::{offset_reserves, OffsetCurve};
use crate::curve::precise::{one_scaled, opt_val, FixedPointNumber};
use crate::error::SwapError;
use vstd::prelude::*;

verus! {

/// The kinds of curve a pool can use.
#[derive(Clone, Copy, Debug, PartialEq, Eq, Structural)]
pub enum CurveType {
    /// Uniswap-style constant product.
    ConstantProduct,
    /// Fixed price of token B in token A.
    ConstantPrice,
    /// Constant product with a virtual token B offset.
    Offset,
}

/// A pricing curve together with its parameters.
#[derive(Clone, Copy, Debug, PartialEq, Eq, Structural)]
pub enum CurveCalculator {
    /// The constant-product curve.
    ConstantProduct(ConstantProductCurve),
    /// The constant-price curve.
    ConstantPrice(ConstantPriceCurve),
    /// The offset curve.
    Offset(OffsetCurve),
}

/// Everything a swap through the fee model and the curve moves.
#[derive(Clone, Copy, Debug, PartialEq, Eq, Structural)]
pub struct SwapResult {
    /// New reserve of the source token.
    pub new_swap_source_amount: u128,
    /// New reserve of the destination token.
    pub new_swap_destination_amount: u128,
    /// Source token taken in, fees included.
    pub source_amount_swapped: u128,
    /// Destination token paid out.
    pub destination_amount_swapped: u128,
    /// Trade fee, kept in the reserves.
    pub trade_fee: u128,
    /// Owner trade fee, kept in the reserves and minted to the owner as
    /// pool tokens.
    pub owner_fee: u128,
}

/// The reserves of tokens A and B, given source and destination.
pub open spec fn reserves_ab(
    swap_source_amount: int,
    swap_destination_amount: int,
    trade_direction: TradeDirection,
) -> (int, int) {
    match trade_direction {
        TradeDirection::AtoB => (swap_source_amount, swap_destination_amount),
        TradeDirection::BtoA => (swap_destination_amount, swap_source_amount),
    }
}

/// Every curve pays out something on a swap that succeeds, and takes in
/// something, but never more than offered.
pub proof fn lemma_swap_takes_at_most_offered(
    calculator: CurveCalculator,
    source_amount: u128,
    swap_source_amount: u128,
    swap_destination_amount: u128,
    trade_direction: TradeDirection,
)
    ensures
        calculator.spec_swap_without_fees(
            source_amount,
            swap_source_amount,
            swap_destination_amount,
            trade_direction,
        ) matches Some(res) ==> 0 < res.source_amount_swapped <= source_amount
            && res.destination_amount_swapped > 0,
{
    match calculator {
        CurveCalculator::ConstantProduct(_) => {
            if swap_of(source_amount, swap_source_amount, swap_destination_amount) is Some {
                lemma_swap_keeps_product(
                    source_amount,
                    swap_source_amount,
                    swap_destination_amount,
                );
            }
        },
        CurveCalculator::ConstantPrice(c) => {
            if c.token_b_price > 0 {
                let price = c.token_b_price as int;
                assert(0 <= (source_amount as int) % price <= source_amount) by (nonlinear_arith)
                    requires
                        price > 0,
                        source_amount >= 0,
                ;
            }
        },
        CurveCalculator::Offset(c) => {
            match offset_reserves(
                c.token_b_offset,
                swap_source_amount,
                swap_destination_amount,
                trade_direction,
            ) {
                Some((s, d)) => {
                    if swap_of(source_amount, s, d) is Some {
                        lemma_swap_keeps_product(source_amount, s, d);
                    }
                },
                None => {},
            }
        },
    }
}

impl CurveCalculator {
    /// The kind of this curve.
    pub open spec fn spec_curve_type(self) -> CurveType {
        match self {
            CurveCalculator::ConstantProduct(_) => CurveType::ConstantProduct,
            CurveCalculator::ConstantPrice(_) => CurveType::ConstantPrice,
            CurveCalculator::Offset(_) => CurveType::Offset,
        }
    }

    /// The quantity that the curve keeps from falling on a swap: the product
    /// of the reserves (offset included), or their sum at the fixed price.
    pub open spec fn pool_level(self, token_a_amount: int, token_b_amount: int) -> int {
        match self {
            CurveCalculator::ConstantProduct(_) => token_a_amount * token_b_amount,
            CurveCalculator::ConstantPrice(c) => token_a_amount + token_b_amount * c.token_b_price,
            CurveCalculator::Offset(c) => token_a_amount * (token_b_amount + c.token_b_offset),
        }
    }

    /// What a swap before fees gives on this curve.
    pub open spec fn spec_swap_without_fees(
        self,
        source_amount: u128,
        swap_source_amount: u128,
        swap_destination_amount: u128,
        trade_direction: TradeDirection,
    ) -> Option<SwapWithoutFeesResult> {
        match self {
            CurveCalculator::ConstantProduct(_) => swap_of(
                source_amount,
                swap_source_amount,
                swap_destination_amount,
            ),
            CurveCalculator::ConstantPrice(c) => price_swap_of(
                c.token_b_price,
                source_amount,
                trade_direction,
            ),
            CurveCalculator::Offset(c) => c.spec_swap(
                source_amount,
                swap_source_amount,
                swap_destination_amount,
                trade_direction,
            ),
        }
    }

    /// The trading tokens that pool tokens stand for on this curve.
    pub open spec fn spec_pool_tokens_to_trading_tokens(
        self,
        pool_tokens: u128,
        pool_token_supply: u128,
        swap_token_a_amount: u128,
        swap_token_b_amount: u128,
        round_direction: RoundDirection,
    ) -> Option<TradingTokenResult> {
        match self {
            CurveCalculator::ConstantPrice(c) => price_trading_tokens_of(
                c.token_b_price,
                pool_tokens,
                pool_token_supply,
                swap_token_a_amount,
                swap_token_b_amount,
                round_direction,
            ),
            _ => trading_tokens_of(
                pool_tokens,
                pool_token_supply,
                swap_token_a_amount,
                swap_token_b_amount,
                round_direction,
            ),
        }
    }

    /// Pool tokens for a single-sided deposit on this curve, rounded down.
    pub open spec fn spec_deposit_single_token_type(
        self,
        source_amount: u128,
        swap_token_a_amount: u128,
        swap_token_b_amount: u128,
        pool_supply: u128,
        trade_direction: TradeDirection,
    ) -> Option<u128> {
        match self {
            CurveCalculator::ConstantProduct(_) => deposit_single_of(
                source_amount,
                swap_token_a_amount,
                swap_token_b_amount,
                pool_supply,
                trade_direction,
                RoundDirection::Floor,
            ),
            CurveCalculator::ConstantPrice(c) => price_pool_tokens_of(
                c.token_b_price,
                source_amount,
                swap_token_a_amount,
                swap_token_b_amount,
                pool_supply,
                trade_direction,
                RoundDirection::Floor,
            ),
            CurveCalculator::Offset(c) => match c.offset_b(swap_token_b_amount) {
                None => None,
                Some(b) => deposit_single_of(
                    source_amount,
                    swap_token_a_amount,
                    b,
                    pool_supply,
                    trade_direction,
                    RoundDirection::Floor,
                ),
            },
        }
    }

    /// Pool tokens for a single-sided withdrawal on this curve.
    pub open spec fn spec_withdraw_single_token_type_exact_out(
        self,
        source_amount: u128,
        swap_token_a_amount: u128,
        swap_token_b_amount: u128,
        pool_supply: u128,
        trade_direction: TradeDirection,
        round_direction: RoundDirection,
    ) -> Option<u128> {
        match self {
            CurveCalculator::ConstantProduct(_) => withdraw_single_of(
                source_amount,
                swap_token_a_amount,
                swap_token_b_amount,
                pool_supply,
                trade_direction,
                round_direction,
            ),
            CurveCalculator::ConstantPrice(c) => price_pool_tokens_of(
                c.token_b_price,
                source_amount,
                swap_token_a_amount,
                swap_token_b_amount,
                pool_supply,
                trade_direction,
                round_direction,
            ),
            CurveCalculator::Offset(c) => match c.offset_b(swap_token_b_amount) {
                None => None,
                Some(b) => withdraw_single_of(
                    source_amount,
                    swap_token_a_amount,
                    b,
                    pool_supply,
                    trade_direction,
                    round_direction,
                ),
            },
        }
    }

    /// Only the constant-price curve has a parameter to check.
    pub open spec fn spec_validate(self) -> Result<(), SwapError> {
        match self {
            CurveCalculator::ConstantPrice(c) => if c.token_b_price == 0 {
                Err(SwapError::InvalidCurve)
            } else {
                Ok(())
            },
            _ => Ok(()),
        }
    }

    /// The constant-price curve needs token A at creation; the others need
    /// both tokens.
    pub open spec fn spec_validate_supply(self, token_a_amount: u64, token_b_amount: u64) -> Result<
        (),
        SwapError,
    > {
        match self {
            CurveCalculator::ConstantPrice(_) => if token_a_amount == 0 {
                Err(SwapError::EmptySupply)
            } else {
                Ok(())
            },
            _ => if token_a_amount == 0 || token_b_amount == 0 {
                Err(SwapError::EmptySupply)
            } else {
                Ok(())
            },
        }
    }

    /// The scaled normalized value of the pool.
    pub open spec fn spec_normalized_value(self, swap_token_a_amount: u128, swap_token_b_amount: u128)
        -> Option<int> {
        match self {
            CurveCalculator::ConstantProduct(_) => normalized_value_of(
                swap_token_a_amount,
                swap_token_b_amount,
            ),
            CurveCalculator::ConstantPrice(c) => match price_value_of(
                c.token_b_price,
                swap_token_a_amount,
                swap_token_b_amount,
            ) {
                Some(v) => Some(v * one_scaled()),
                None => None,
            },
            CurveCalculator::Offset(c) => match c.offset_b(swap_token_b_amount) {
                None => None,
                Some(b) => normalized_value_of(swap_token_a_amount, b),
            },
        }
    }

    /// Only the offset curve forbids deposits after creation.
    pub open spec fn spec_allows_deposits(self) -> bool {
        !(self is Offset)
    }

    /// The kind of this curve.
    pub fn curve_type(&self) -> (r: CurveType)
        ensures
            r == self.spec_curve_type(),
    {
        match self {
            CurveCalculator::ConstantProduct(_) => CurveType::ConstantProduct,
            CurveCalculator::ConstantPrice(_) => CurveType::ConstantPrice,
            CurveCalculator::Offset(_) => CurveType::Offset,
        }
    }

    /// How much destination token an amount of source token buys, before fees.
    pub fn swap_without_fees(
        &self,
        source_amount: u128,
        swap_source_amount: u128,
        swap_destination_amount: u128,
        trade_direction: TradeDirection,
    ) -> (r: Option<SwapWithoutFeesResult>)
        ensures
            r == self.spec_swap_without_fees(
                source_amount,
                swap_source_amount,
                swap_destination_amount,
                trade_direction,
            ),
            r matches Some(res) ==> 0 < res.source_amount_swapped <= source_amount
                && res.destination_amount_swapped > 0,
    {
        proof {
            lemma_swap_takes_at_most_offered(
                *self,
                source_amount,
                swap_source_amount,
                swap_destination_amount,
                trade_direction,
            );
        }
        match self {
            CurveCalculator::ConstantProduct(c) => c.swap_without_fees(
                source_amount,
                swap_source_amount,
                swap_destination_amount,
                trade_direction,
            ),
            CurveCalculator::ConstantPrice(c) => c.swap_without_fees(
                source_amount,
                swap_source_amount,
                swap_destination_amount,
                trade_direction,
            ),
            CurveCalculator::Offset(c) => c.swap_without_fees(
                source_amount,
                swap_source_amount,
                swap_destination_amount,
                trade_direction,
            ),
        }
    }

    /// The pool-token supply minted when a pool is created, the same for
    /// every curve.
    pub fn new_pool_supply(&self) -> (r: u128)
        ensures
            r == INITIAL_SWAP_POOL_AMOUNT,
    {
        INITIAL_SWAP_POOL_AMOUNT
    }

    /// The trading tokens that an amount of pool tokens stands for.
    pub fn pool_tokens_to_trading_tokens(
        &self,
        pool_tokens: u128,
        pool_token_supply: u128,
        swap_token_a_amount: u128,
        swap_token_b_amount: u128,
        round_direction: RoundDirection,
    ) -> (r: Option<TradingTokenResult>)
        ensures
            r == self.spec_pool_tokens_to_trading_tokens(
                pool_tokens,
                pool_token_supply,
                swap_token_a_amount,
                swap_token_b_amount,
                round_direction,
            ),
    {
        match self {
            CurveCalculator::ConstantProduct(c) => c.pool_tokens_to_trading_tokens(
                pool_tokens,
                pool_token_supply,
                swap_token_a_amount,
                swap_token_b_amount,
                round_direction,
            ),
            CurveCalculator::ConstantPrice(c) => c.pool_tokens_to_trading_tokens(
                pool_tokens,
                pool_token_supply,
                swap_token_a_amount,
                swap_token_b_amount,
                round_direction,
            ),
            CurveCalculator::Offset(c) => c.pool_tokens_to_trading_tokens(
                pool_tokens,
                pool_token_supply,
                swap_token_a_amount,
                swap_token_b_amount,
                round_direction,
            ),
        }
    }

    /// Pool tokens for a deposit of one token kind.
    pub fn deposit_single_token_type(
        &self,
        source_amount: u128,
        swap_token_a_amount: u128,
        swap_token_b_amount: u128,
        pool_supply: u128,
        trade_direction: TradeDirection,
    ) -> (r: Option<u128>)
        ensures
            r == self.spec_deposit_single_token_type(
                source_amount,
                swap_token_a_amount,
                swap_token_b_amount,
                pool_supply,
                trade_direction,
            ),
    {
        match self {
            CurveCalculator::ConstantProduct(c) => c.deposit_single_token_type(
                source_amount,
                swap_token_a_amount,
                swap_token_b_amount,
                pool_supply,
                trade_direction,
            ),
            CurveCalculator::ConstantPrice(c) => c.deposit_single_token_type(
                source_amount,
                swap_token_a_amount,
                swap_token_b_amount,
                pool_supply,
                trade_direction,
            ),
            CurveCalculator::Offset(c) => c.deposit_single_token_type(
                source_amount,
                swap_token_a_amount,
                swap_token_b_amount,
                pool_supply,
                trade_direction,
            ),
        }
    }

    /// Pool tokens for a withdrawal of one token kind.
    pub fn withdraw_single_token_type_exact_out(
        &self,
        source_amount: u128,
        swap_token_a_amount: u128,
        swap_token_b_amount: u128,
        pool_supply: u128,
        trade_direction: TradeDirection,
        round_direction: RoundDirection,
    ) -> (r: Option<u128>)
        ensures
            r == self.spec_withdraw_single_token_type_exact_out(
                source_amount,
                swap_token_a_amount,
                swap_token_b_amount,
                pool_supply,
                trade_direction,
                round_direction,
            ),
    {
        match self {
            CurveCalculator::ConstantProduct(c) => c.withdraw_single_token_type_exact_out(
                source_amount,
                swap_token_a_amount,
                swap_token_b_amount,
                pool_supply,
                trade_direction,
                round_direction,
            ),
            CurveCalculator::ConstantPrice(c) => c.withdraw_single_token_type_exact_out(
                source_amount,
                swap_token_a_amount,
                swap_token_b_amount,
                pool_supply,
                trade_direction,
                round_direction,
            ),
            CurveCalculator::Offset(c) => c.withdraw_single_token_type_exact_out(
                source_amount,
                swap_token_a_amount,
                swap_token_b_amount,
                pool_supply,
                trade_direction,
                round_direction,
            ),
        }
    }

    /// Checks the curve's parameters.
    pub fn validate(&self) -> (r: Result<(), SwapError>)
        ensures
            r == self.spec_validate(),
    {
        match self {
            CurveCalculator::ConstantProduct(c) => c.validate(),
            CurveCalculator::ConstantPrice(c) => c.validate(),
            CurveCalculator::Offset(c) => c.validate(),
        }
    }

    /// Checks the starting reserves of a new pool.
    pub fn validate_supply(&self, token_a_amount: u64, token_b_amount: u64) -> (r: Result<
        (),
        SwapError,
    >)
        ensures
            r == self.spec_validate_supply(token_a_amount, token_b_amount),
    {
        match self {
            CurveCalculator::ConstantPrice(c) => c.validate_supply(token_a_amount, token_b_amount),
            _ => {
                if token_a_amount == 0 {
                    return Err(SwapError::EmptySupply);
                }
                if token_b_amount == 0 {
                    return Err(SwapError::EmptySupply);
                }
                Ok(())
            },
        }
    }

    /// Whether deposits are allowed after creation.
    pub fn allows_deposits(&self) -> (r: bool)
        ensures
            r == self.spec_allows_deposits(),
    {
        match self {
            CurveCalculator::Offset(_) => false,
            _ => true,
        }
    }

    /// A scalar proxy for the total value of the pool, in tokens.
    pub fn normalized_value(&self, swap_token_a_amount: u128, swap_token_b_amount: u128) -> (r:
        Option<FixedPointNumber>)
        ensures
            opt_val(r) == self.spec_normalized_value(swap_token_a_amount, swap_token_b_amount),
    {
        match self {
            CurveCalculator::ConstantProduct(c) => c.normalized_value(
                swap_token_a_amount,
                swap_token_b_amount,
            ),
            CurveCalculator::ConstantPrice(c) => c.normalized_value(
                swap_token_a_amount,
                swap_token_b_amount,
            ),
            CurveCalculator::Offset(c) => c.normalized_value(
                swap_token_a_amount,
                swap_token_b_amount,
            ),
        }
    }
}

/// The pool's curve.
#[derive(Clone, Copy, Debug, PartialEq, Eq, Structural)]
pub struct SwapCurve {
    /// The curve variant with its parameters.
    pub calculator: CurveCalculator,
}

/// A swap through the fee model and the curve: the trade fee comes off the
/// amount in, the owner fee off what is left, the curve swaps the rest, and
/// both fees are added back to what the pool takes in.
pub open spec fn swap_with_fees_of(
    calculator: CurveCalculator,
    source_amount: u128,
    swap_source_amount: u128,
    swap_destination_amount: u128,
    trade_direction: TradeDirection,
    fees: Fees,
) -> Option<SwapResult> {
    match fees.spec_trading_fee(source_amount) {
        None => None,
        Some(trade_fee) => if trade_fee > source_amount {
            None
        } else {
            let less_trade_fee = (source_amount - trade_fee) as u128;
            match fees.spec_owner_trading_fee(less_trade_fee) {
                None => None,
                Some(owner_fee) => if owner_fee > less_trade_fee {
                    None
                } else {
                    match calculator.spec_swap_without_fees(
                        (less_trade_fee - owner_fee) as u128,
                        swap_source_amount,
                        swap_destination_amount,
                        trade_direction,
                    ) {
                        None => None,
                        Some(res) => {
                            let swapped = res.source_amount_swapped + trade_fee + owner_fee;
                            if swapped > u128::MAX || swap_source_amount + swapped > u128::MAX
                                || res.destination_amount_swapped > swap_destination_amount {
                                None
                            } else {
                                Some(
                                    SwapResult {
                                        new_swap_source_amount: (swap_source_amount
                                            + swapped) as u128,
                                        new_swap_destination_amount: (swap_destination_amount
                                            - res.destination_amount_swapped) as u128,
                                        source_amount_swapped: swapped as u128,
                                        destination_amount_swapped: res.destination_amount_swapped,
                                        trade_fee,
                                        owner_fee,
                                    },
                                )
                            }
                        },
                    }
                },
            }
        },
    }
}

/// Pool tokens for a single-sided deposit, after the fees that a swap of
/// half the amount would pay.
pub open spec fn deposit_with_fees_of(
    calculator: CurveCalculator,
    source_amount: u128,
    swap_token_a_amount: u128,
    swap_token_b_amount: u128,
    pool_supply: u128,
    trade_direction: TradeDirection,
    fees: Fees,
) -> Option<u128> {
    if source_amount == 0 {
        Some(0)
    } else {
        let half = if source_amount / 2 == 0 {
            1
        } else {
            source_amount / 2
        };
        match (fees.spec_trading_fee(half as u128), fees.spec_owner_trading_fee(half as u128)) {
            (Some(trade_fee), Some(owner_fee)) => if trade_fee + owner_fee > source_amount {
                None
            } else {
                calculator.spec_deposit_single_token_type(
                    (source_amount - trade_fee - owner_fee) as u128,
                    swap_token_a_amount,
                    swap_token_b_amount,
                    pool_supply,
                    trade_direction,
                )
            },
            _ => None,
        }
    }
}

/// Pool tokens burnt for a single-sided withdrawal: half the amount, rounded
/// up, is grossed up by the fees its swap would pay, and the burn is rounded up.
pub open spec fn withdraw_with_fees_of(
    calculator: CurveCalculator,
    source_amount: u128,
    swap_token_a_amount: u128,
    swap_token_b_amount: u128,
    pool_supply: u128,
    trade_direction: TradeDirection,
    fees: Fees,
) -> Option<u128> {
    if source_amount == 0 {
        Some(0)
    } else if source_amount == u128::MAX {
        None
    } else {
        let half = (source_amount + 1) / 2;
        match fees.spec_pre_trading_fee_amount(half as u128) {
            None => None,
            Some(pre_fee) => if source_amount - half + pre_fee > u128::MAX {
                None
            } else {
                calculator.spec_withdraw_single_token_type_exact_out(
                    (source_amount - half + pre_fee) as u128,
                    swap_token_a_amount,
                    swap_token_b_amount,
                    pool_supply,
                    trade_direction,
                    RoundDirection::Ceiling,
                )
            },
        }
    }
}

impl SwapCurve {
    /// Swaps an amount of source token, fees included.
    pub fn swap(
        &self,
        source_amount: u128,
        swap_source_amount: u128,
        swap_destination_amount: u128,
        trade_direction: TradeDirection,
        fees: &Fees,
    ) -> (r: Option<SwapResult>)
        ensures
            r == swap_with_fees_of(
                self.calculator,
                source_amount,
                swap_source_amount,
                swap_destination_amount,
                trade_direction,
                *fees,
            ),
            r matches Some(res) ==> {
                &&& res.source_amount_swapped <= source_amount
                &&& res.destination_amount_swapped > 0
                &&& res.new_swap_source_amount == swap_source_amount + res.source_amount_swapped
                &&& res.new_swap_destination_amount == swap_destination_amount
                    - res.destination_amount_swapped
            },
    {
        let trade_fee = fees.trading_fee(source_amount)?;
        let less_trade_fee = source_amount.checked_sub(trade_fee)?;
        let owner_fee = fees.owner_trading_fee(less_trade_fee)?;
        let less_all_fees = less_trade_fee.checked_sub(owner_fee)?;
        let res = self.calculator.swap_without_fees(
            less_all_fees,
            swap_source_amount,
            swap_destination_amount,
            trade_direction,
        )?;
        let source_amount_swapped = res.source_amount_swapped.checked_add(trade_fee)?.checked_add(
            owner_fee,
        )?;
        Some(
            SwapResult {
                new_swap_source_amount: swap_source_amount.checked_add(source_amount_swapped)?,
                new_swap_destination_amount: swap_destination_amount.checked_sub(
                    res.destination_amount_swapped,
                )?,
                source_amount_swapped,
                destination_amount_swapped: res.destination_amount_swapped,
                trade_fee,
                owner_fee,
            },
        )
    }

    /// Pool tokens for a deposit of one token kind, less the fees that
    /// swapping half of it would pay.
    pub fn deposit_single_token_type(
        &self,
        source_amount: u128,
        swap_token_a_amount: u128,
        swap_token_b_amount: u128,
        pool_supply: u128,
        trade_direction: TradeDirection,
        fees: &Fees,
    ) -> (r: Option<u128>)
        ensures
            r == deposit_with_fees_of(
                self.calculator,
                source_amount,
                swap_token_a_amount,
                swap_token_b_amount,
                pool_supply,
                trade_direction,
                *fees,
            ),
    {
        if source_amount == 0 {
            return Some(0);
        }
        let half_source_amount = if source_amount / 2 == 0 {
            1
        } else {
            source_amount / 2
        };
        let trade_fee = fees.trading_fee(half_source_amount)?;
        let owner_fee = fees.owner_trading_fee(half_source_amount)?;
        let total_fees = trade_fee.checked_add(owner_fee)?;
        let source_amount = source_amount.checked_sub(total_fees)?;
        self.calculator.deposit_single_token_type(
            source_amount,
            swap_token_a_amount,
            swap_token_b_amount,
            pool_supply,
            trade_direction,
        )
    }

    /// Pool tokens to burn for a withdrawal of one token kind, including the
    /// fees that swapping half of it would pay.
    pub fn withdraw_single_token_type_exact_out(
        &self,
        source_amount: u128,
        swap_token_a_amount: u128,
        swap_token_b_amount: u128,
        pool_supply: u128,
        trade_direction: TradeDirection,
        fees: &Fees,
    ) -> (r: Option<u128>)
        ensures
            r == withdraw_with_fees_of(
                self.calculator,
                source_amount,
                swap_token_a_amount,
                swap_token_b_amount,
                pool_supply,
                trade_direction,
                *fees,
            ),
    {
        if source_amount == 0 {
            return Some(0);
        }
        let half_source_amount = source_amount.checked_add(1)? / 2;
        let pre_fee_source_amount = fees.pre_trading_fee_amount(half_source_amount)?;
        let source_amount = (source_amount - half_source_amount).checked_add(
            pre_fee_source_amount,
        )?;
        self.calculator.withdraw_single_token_type_exact_out(
            source_amount,
            swap_token_a_amount,
            swap_token_b_amount,
            pool_supply,
            trade_direction,
            RoundDirection::Ceiling,
        )
    }
}

} // verus!
