//! The constant-price curve: token A trades for token B at a fixed price.

use crate::curve::calculator::{
    map_zero_to_none, RoundDirection, SwapWithoutFeesResult, TradeDirection, TradingTokenResult,
};
use crate::curve::precise::{one_scaled, opt_val, FixedPointNumber};
use crate::curve::wide::{
    ceil_div_pair, checked_add, checked_ceil_div, checked_ceil_div_u128, checked_div, checked_mul,
    u256_max, Uint256,
};
use crate::error::SwapError;
use vstd::prelude::*;

verus! {

/// A curve on which one token B is always worth `token_b_price` of token A.
#[derive(Clone, Copy, Debug, PartialEq, Eq, Structural)]
pub struct ConstantPriceCurve {
    /// Amount of token A required to get one token B.
    pub token_b_price: u64,
}

/// The value of a deposit or withdrawal of `source_amount`, in token A.
pub open spec fn given_value_of(
    token_b_price: u64,
    source_amount: u128,
    trade_direction: TradeDirection,
) -> int {
    match trade_direction {
        TradeDirection::AtoB => source_amount as int,
        TradeDirection::BtoA => source_amount * token_b_price,
    }
}

/// Pool tokens for trading tokens of the given value:
/// `pool_supply * given_value / total_value`, rounded as asked.
pub open spec fn price_pool_tokens_of(
    token_b_price: u64,
    source_amount: u128,
    swap_token_a_amount: u128,
    swap_token_b_amount: u128,
    pool_supply: u128,
    trade_direction: TradeDirection,
    round_direction: RoundDirection,
) -> Option<u128> {
    let given = given_value_of(token_b_price, source_amount, trade_direction);
    let total = swap_token_b_amount * token_b_price + swap_token_a_amount;
    let product = pool_supply * given;
    if product > u256_max() || total == 0 {
        None
    } else {
        let quotient = match round_direction {
            RoundDirection::Floor => Some(product / total),
            RoundDirection::Ceiling => match ceil_div_pair(product, total) {
                Some((q, _)) => Some(q),
                None => None,
            },
        };
        match quotient {
            Some(q) => if q <= u128::MAX {
                Some(q as u128)
            } else {
                None
            },
            None => None,
        }
    }
}

/// Get the amount of pool tokens for the given amount of token A or B: the
/// share of the pool's total value, counted in token A, that it brings.
pub fn trading_tokens_to_pool_tokens(
    token_b_price: u64,
    source_amount: u128,
    swap_token_a_amount: u128,
    swap_token_b_amount: u128,
    pool_supply: u128,
    trade_direction: TradeDirection,
    round_direction: RoundDirection,
) -> (r: Option<u128>)
    ensures
        r == price_pool_tokens_of(
            token_b_price,
            source_amount,
            swap_token_a_amount,
            swap_token_b_amount,
            pool_supply,
            trade_direction,
            round_direction,
        ),
{
    let price = Uint256::from_u128(token_b_price as u128);
    assert(source_amount * token_b_price <= u256_max()) by (nonlinear_arith)
        requires
            source_amount <= u128::MAX,
            token_b_price <= u64::MAX,
    ;
    assert(swap_token_b_amount * token_b_price + swap_token_a_amount <= u256_max())
        by (nonlinear_arith)
        requires
            swap_token_b_amount <= u128::MAX,
            swap_token_a_amount <= u128::MAX,
            token_b_price <= u64::MAX,
    ;
    let given_value = match trade_direction {
        TradeDirection::AtoB => Uint256::from_u128(source_amount),
        TradeDirection::BtoA => checked_mul(Uint256::from_u128(source_amount), price)?,
    };
    let total_value = checked_add(
        checked_mul(Uint256::from_u128(swap_token_b_amount), price)?,
        Uint256::from_u128(swap_token_a_amount),
    )?;
    let pool_supply = Uint256::from_u128(pool_supply);
    let product = checked_mul(pool_supply, given_value)?;
    let quotient = match round_direction {
        RoundDirection::Floor => checked_div(product, total_value)?,
        RoundDirection::Ceiling => {
            if total_value.w0 == 0 && total_value.w1 == 0 && total_value.w2 == 0
                && total_value.w3 == 0 {
                return None;
            }
            checked_ceil_div(product, total_value)?.0
        },
    };
    quotient.to_u128()
}

/// `(reserve_a + reserve_b * price) / 2`; when the sum would overflow, each
/// part is halved before adding.
pub open spec fn price_value_of(
    token_b_price: u64,
    swap_token_a_amount: u128,
    swap_token_b_amount: u128,
) -> Option<int> {
    let b_value = swap_token_b_amount * token_b_price;
    if b_value > u128::MAX {
        None
    } else if swap_token_a_amount + b_value > u128::MAX {
        Some(b_value / 2 + swap_token_a_amount / 2)
    } else {
        Some((swap_token_a_amount + b_value) / 2)
    }
}

/// Trading tokens for pool tokens: the pool's total value in token A,
/// split by the share, and paid as token A or, at the price, as token B.
pub open spec fn price_trading_tokens_of(
    token_b_price: u64,
    pool_tokens: u128,
    pool_token_supply: u128,
    swap_token_a_amount: u128,
    swap_token_b_amount: u128,
    round_direction: RoundDirection,
) -> Option<TradingTokenResult> {
    match price_value_of(token_b_price, swap_token_a_amount, swap_token_b_amount) {
        None => None,
        Some(total_value) => {
            let product = pool_tokens * total_value;
            if product > u128::MAX || pool_token_supply == 0 || token_b_price == 0 {
                None
            } else {
                match round_direction {
                    RoundDirection::Floor => Some(
                        TradingTokenResult {
                            token_a_amount: (product / (pool_token_supply as int)) as u128,
                            token_b_amount: ((product / (token_b_price as int)) / (
                            pool_token_supply as int)) as u128,
                        },
                    ),
                    RoundDirection::Ceiling => match (
                        ceil_div_pair(product, pool_token_supply as int),
                        ceil_div_pair(product, token_b_price as int),
                    ) {
                        (Some((a, _)), Some((value_in_b, _))) => match ceil_div_pair(
                            value_in_b,
                            pool_token_supply as int,
                        ) {
                            Some((b, _)) => Some(
                                TradingTokenResult { token_a_amount: a as u128, token_b_amount: b as u128 },
                            ),
                            None => None,
                        },
                        _ => None,
                    },
                }
            }
        },
    }
}

/// The outcome of a constant-price swap: B to A pays `price` per token in;
/// A to B pays whole tokens only and takes in only what they cost.
pub open spec fn price_swap_of(
    token_b_price: u64,
    source_amount: u128,
    trade_direction: TradeDirection,
) -> Option<SwapWithoutFeesResult> {
    let (source_swapped, destination_swapped) = match trade_direction {
        TradeDirection::BtoA => (source_amount as int, source_amount * token_b_price),
        TradeDirection::AtoB => if token_b_price == 0 {
            (0, 0)
        } else {
            (
                source_amount - (source_amount as int) % (token_b_price as int),
                (source_amount as int) / (token_b_price as int),
            )
        },
    };
    if destination_swapped > u128::MAX || source_swapped == 0 || destination_swapped == 0 {
        None
    } else {
        Some(
            SwapWithoutFeesResult {
                source_amount_swapped: source_swapped as u128,
                destination_amount_swapped: destination_swapped as u128,
            },
        )
    }
}

impl ConstantPriceCurve {
    /// Swaps at the fixed price; the remainder that buys no whole token B
    /// stays with the trader.
    pub fn swap_without_fees(
        &self,
        source_amount: u128,
        _swap_source_amount: u128,
        _swap_destination_amount: u128,
        trade_direction: TradeDirection,
    ) -> (r: Option<SwapWithoutFeesResult>)
        ensures
            r == price_swap_of(self.token_b_price, source_amount, trade_direction),
    {
        let token_b_price = self.token_b_price as u128;
        let (source_amount_swapped, destination_amount_swapped) = match trade_direction {
            TradeDirection::BtoA => (source_amount, source_amount.checked_mul(token_b_price)?),
            TradeDirection::AtoB => {
                let destination_amount_swapped = source_amount.checked_div(token_b_price)?;
                let mut source_amount_swapped = source_amount;
                let remainder = source_amount_swapped.checked_rem(token_b_price)?;
                if remainder > 0 {
                    assert(remainder <= source_amount) by (nonlinear_arith)
                        requires
                            remainder == source_amount % token_b_price,
                            token_b_price > 0,
                    ;
                    source_amount_swapped = source_amount - remainder;
                }
                (source_amount_swapped, destination_amount_swapped)
            },
        };
        let source_amount_swapped = map_zero_to_none(source_amount_swapped)?;
        let destination_amount_swapped = map_zero_to_none(destination_amount_swapped)?;
        Some(SwapWithoutFeesResult { source_amount_swapped, destination_amount_swapped })
    }

    /// Converts pool tokens to trading tokens; the pool's total value is
    /// weighted by the price of token B.
    pub fn pool_tokens_to_trading_tokens(
        &self,
        pool_tokens: u128,
        pool_token_supply: u128,
        swap_token_a_amount: u128,
        swap_token_b_amount: u128,
        round_direction: RoundDirection,
    ) -> (r: Option<TradingTokenResult>)
        ensures
            r == price_trading_tokens_of(
                self.token_b_price,
                pool_tokens,
                pool_token_supply,
                swap_token_a_amount,
                swap_token_b_amount,
                round_direction,
            ),
    {
        let token_b_price = self.token_b_price as u128;
        let total_value = self.normalized_value(swap_token_a_amount, swap_token_b_amount)?;
        proof {
            let v = price_value_of(self.token_b_price, swap_token_a_amount, swap_token_b_amount).unwrap();
            assert((v * one_scaled() + 500_000_000_000) / one_scaled() == v) by (nonlinear_arith)
                requires
                    v >= 0,
                    one_scaled() == 1_000_000_000_000,
            ;
        }
        let total_value = total_value.to_u128()?;
        let product = pool_tokens.checked_mul(total_value)?;
        let (token_a_amount, token_b_amount) = match round_direction {
            RoundDirection::Floor => {
                let token_a_amount = product.checked_div(pool_token_supply)?;
                let token_b_amount = product.checked_div(token_b_price)?.checked_div(
                    pool_token_supply,
                )?;
                (token_a_amount, token_b_amount)
            },
            RoundDirection::Ceiling => {
                if pool_token_supply == 0 || token_b_price == 0 {
                    return None;
                }
                let (token_a_amount, _) = checked_ceil_div_u128(product, pool_token_supply)?;
                let (pool_value_as_token_b, _) = checked_ceil_div_u128(product, token_b_price)?;
                let (token_b_amount, _) = checked_ceil_div_u128(
                    pool_value_as_token_b,
                    pool_token_supply,
                )?;
                (token_a_amount, token_b_amount)
            },
        };
        Some(TradingTokenResult { token_a_amount, token_b_amount })
    }

    /// Pool tokens for a deposit of one token kind, rounded down.
    pub fn deposit_single_token_type(
        &self,
        source_amount: u128,
        swap_token_a_amount: u128,
        swap_token_b_amount: u128,
        pool_supply: u128,
        trade_direction: TradeDirection,
    ) -> (r: Option<u128>)
        ensures
            r == price_pool_tokens_of(
                self.token_b_price,
                source_amount,
                swap_token_a_amount,
                swap_token_b_amount,
                pool_supply,
                trade_direction,
                RoundDirection::Floor,
            ),
    {
        trading_tokens_to_pool_tokens(
            self.token_b_price,
            source_amount,
            swap_token_a_amount,
            swap_token_b_amount,
            pool_supply,
            trade_direction,
            RoundDirection::Floor,
        )
    }

    /// Pool tokens for a withdrawal of one token kind, rounded as asked.
    pub fn withdraw_single_token_type_exact_out(
        &self,
        source_amount: u128,
        swap_token_a_amount: u128,
        swap_token_b_amount: u128,
        pool_supply: u128,
        trade_direction: TradeDirection,
        round_direction: RoundDirection,
    ) -> (r: Option<u128>)
        ensures
            r == price_pool_tokens_of(
                self.token_b_price,
                source_amount,
                swap_token_a_amount,
                swap_token_b_amount,
                pool_supply,
                trade_direction,
                round_direction,
            ),
    {
        trading_tokens_to_pool_tokens(
            self.token_b_price,
            source_amount,
            swap_token_a_amount,
            swap_token_b_amount,
            pool_supply,
            trade_direction,
            round_direction,
        )
    }

    /// The price must be nonzero.
    pub fn validate(&self) -> (r: Result<(), SwapError>)
        ensures
            r == (if self.token_b_price == 0 {
                Err(SwapError::InvalidCurve)
            } else {
                Ok(())
            }),
    {
        if self.token_b_price == 0 {
            Err(SwapError::InvalidCurve)
        } else {
            Ok(())
        }
    }

    /// Only token A must be present at creation; token B may start empty.
    pub fn validate_supply(&self, token_a_amount: u64, _token_b_amount: u64) -> (r: Result<
        (),
        SwapError,
    >)
        ensures
            r == (if token_a_amount == 0 {
                Err(SwapError::EmptySupply)
            } else {
                Ok(())
            }),
    {
        if token_a_amount == 0 {
            return Err(SwapError::EmptySupply);
        }
        Ok(())
    }

    /// The total value of the pool in token A, halved to weigh both sides
    /// alike: `(reserve_a + reserve_b * price) / 2`.
    pub fn normalized_value(&self, swap_token_a_amount: u128, swap_token_b_amount: u128) -> (r:
        Option<FixedPointNumber>)
        ensures
            opt_val(r) == (match price_value_of(
                self.token_b_price,
                swap_token_a_amount,
                swap_token_b_amount,
            ) {
                Some(v) => Some(v * one_scaled()),
                None => None,
            }),
    {
        let swap_token_b_value = swap_token_b_amount.checked_mul(self.token_b_price as u128)?;
        let value = match swap_token_a_amount.checked_add(swap_token_b_value) {
            Some(sum) => sum / 2,
            None => swap_token_b_value / 2 + swap_token_a_amount / 2,
        };
        FixedPointNumber::new(value)
    }
}

} // verus!
