//! The constant-product (Uniswap) curve: `reserve_a * reserve_b` never falls.

use crate::curve::calculator::{
    map_zero_to_none, RoundDirection, SwapWithoutFeesResult, TradingTokenResult,
};
use crate::curve::calculator::TradeDirection;
use crate::curve::precise::{
    one_scaled, opt_val, precise_ceiling, precise_div, precise_floor,
    precise_mul, precise_sub, precise_to_integer, sqrt_of, FixedPointNumber,
};
use crate::curve::wide::{ceil_div_pair, checked_ceil_div_u128, fit256};
use crate::error::SwapError;
use vstd::prelude::*;

verus! {

/// The constant-product curve; it has no parameters.
#[derive(Clone, Copy, Debug, PartialEq, Eq, Structural)]
pub struct ConstantProductCurve;

/// The outcome of a constant-product swap of `source_amount` into reserves
/// `swap_source_amount` and `swap_destination_amount`. The new destination
/// reserve is the product of the reserves divided by the new source reserve, rounded up;
/// the source taken is then lowered to the least amount that still gives it.
pub open spec fn swap_of(source_amount: u128, swap_source_amount: u128, swap_destination_amount: u128)
    -> Option<SwapWithoutFeesResult> {
    let product_k = swap_source_amount * swap_destination_amount;
    let new_source = swap_source_amount + source_amount;
    if product_k > u128::MAX || new_source > u128::MAX {
        None
    } else {
        match ceil_div_pair(product_k, new_source) {
            None => None,
            Some((new_destination, least_source)) => {
                if least_source < swap_source_amount || new_destination >= swap_destination_amount {
                    None
                } else {
                    Some(
                        SwapWithoutFeesResult {
                            source_amount_swapped: (least_source - swap_source_amount) as u128,
                            destination_amount_swapped: (swap_destination_amount
                                - new_destination) as u128,
                        },
                    )
                }
            },
        }
    }
}

/// The share of `amount` that `pool_tokens` out of `pool_token_supply` stand
/// for. Rounding up adds one only when there is a remainder and the floored
/// share is itself nonzero.
pub open spec fn share_of(
    pool_tokens: u128,
    pool_token_supply: u128,
    amount: u128,
    round_direction: RoundDirection,
) -> int {
    let product = pool_tokens * amount;
    let floored = product / (pool_token_supply as int);
    match round_direction {
        RoundDirection::Floor => floored,
        RoundDirection::Ceiling => if product % (pool_token_supply as int) > 0 && floored > 0 {
            floored + 1
        } else {
            floored
        },
    }
}

/// The amounts of both tokens that `pool_tokens` stand for, or `None` on a
/// zero supply or an overflowing product.
pub open spec fn trading_tokens_of(
    pool_tokens: u128,
    pool_token_supply: u128,
    swap_token_a_amount: u128,
    swap_token_b_amount: u128,
    round_direction: RoundDirection,
) -> Option<TradingTokenResult> {
    if pool_token_supply == 0 || pool_tokens * swap_token_a_amount > u128::MAX || pool_tokens
        * swap_token_b_amount > u128::MAX {
        None
    } else {
        Some(
            TradingTokenResult {
                token_a_amount: share_of(
                    pool_tokens,
                    pool_token_supply,
                    swap_token_a_amount,
                    round_direction,
                ) as u128,
                token_b_amount: share_of(
                    pool_tokens,
                    pool_token_supply,
                    swap_token_b_amount,
                    round_direction,
                ) as u128,
            },
        )
    }
}

proof fn lemma_ceil_div_pair_keeps_product(dividend: int, divisor: int)
    requires
        dividend >= 0,
        divisor > 0,
        ceil_div_pair(dividend, divisor) is Some,
    ensures
        ({
            let (q, d) = ceil_div_pair(dividend, divisor).unwrap();
            &&& q * d >= dividend
            &&& d <= divisor
            &&& q >= 1
        }),
{
    let q0 = dividend / divisor;
    let r0 = dividend % divisor;
    vstd::arithmetic::div_mod::lemma_fundamental_div_mod(dividend, divisor);
    if r0 == 0 {
        assert(q0 * divisor == dividend) by (nonlinear_arith)
            requires
                dividend == divisor * q0 + r0,
                r0 == 0,
        ;
    } else {
        let q = q0 + 1;
        vstd::arithmetic::div_mod::lemma_fundamental_div_mod(dividend, q);
        let least = if dividend % q > 0 {
            dividend / q + 1
        } else {
            dividend / q
        };
        assert(q * least >= dividend) by (nonlinear_arith)
            requires
                dividend == q * (dividend / q) + dividend % q,
                0 <= dividend % q < q,
                least == (if dividend % q > 0 {
                    dividend / q + 1
                } else {
                    dividend / q
                }),
        ;
        assert(least <= divisor) by (nonlinear_arith)
            requires
                dividend == divisor * q0 + r0,
                0 < r0 < divisor,
                q == q0 + 1,
                dividend == q * (dividend / q) + dividend % q,
                0 <= dividend % q < q,
                least == (if dividend % q > 0 {
                    dividend / q + 1
                } else {
                    dividend / q
                }),
        ;
    }
}

/// A swap on the constant-product curve never lowers the product of the
/// reserves, takes in no more than offered, and pays out something.
pub proof fn lemma_swap_keeps_product(
    source_amount: u128,
    swap_source_amount: u128,
    swap_destination_amount: u128,
)
    requires
        swap_of(source_amount, swap_source_amount, swap_destination_amount) is Some,
    ensures
        ({
            let res = swap_of(source_amount, swap_source_amount, swap_destination_amount).unwrap();
            &&& res.destination_amount_swapped > 0
            &&& res.destination_amount_swapped < swap_destination_amount
            &&& 0 < res.source_amount_swapped <= source_amount
            &&& (swap_source_amount + res.source_amount_swapped) * (swap_destination_amount
                - res.destination_amount_swapped) >= swap_source_amount * swap_destination_amount
        }),
{
    let product_k = swap_source_amount * swap_destination_amount;
    let new_source = swap_source_amount + source_amount;
    lemma_ceil_div_pair_keeps_product(product_k, new_source);
    let (new_destination, least_source) = ceil_div_pair(product_k, new_source).unwrap();
    let res = swap_of(source_amount, swap_source_amount, swap_destination_amount).unwrap();
    assert((swap_source_amount + res.source_amount_swapped) * (swap_destination_amount
        - res.destination_amount_swapped) >= product_k) by (nonlinear_arith)
        requires
            swap_source_amount + res.source_amount_swapped == least_source,
            swap_destination_amount - res.destination_amount_swapped == new_destination,
            new_destination * least_source >= product_k,
    ;
    assert(product_k >= 1);
    assert(swap_source_amount >= 1) by (nonlinear_arith)
        requires
            product_k == swap_source_amount * swap_destination_amount,
            product_k >= 1,
    ;
    if least_source == swap_source_amount {
        assert(new_destination >= swap_destination_amount) by (nonlinear_arith)
            requires
                new_destination * least_source >= least_source * swap_destination_amount,
                least_source >= 1,
        ;
    }
}

/// The constant product swap calculation, for reuse by other curves.
pub fn swap(source_amount: u128, swap_source_amount: u128, swap_destination_amount: u128) -> (r:
    Option<SwapWithoutFeesResult>)
    ensures
        r == swap_of(source_amount, swap_source_amount, swap_destination_amount),
        r matches Some(res) ==> {
            &&& res.destination_amount_swapped > 0
            &&& res.source_amount_swapped <= source_amount
            &&& (swap_source_amount + res.source_amount_swapped) * (swap_destination_amount
                - res.destination_amount_swapped) >= swap_source_amount * swap_destination_amount
        },
{
    let product_k = match swap_source_amount.checked_mul(swap_destination_amount) {
        Some(v) => v,
        None => return None,
    };
    let new_swap_source_amount = match swap_source_amount.checked_add(source_amount) {
        Some(v) => v,
        None => return None,
    };
    let (new_swap_destination_amount, new_swap_source_amount) = match checked_ceil_div_u128(
        product_k,
        new_swap_source_amount,
    ) {
        Some(pair) => pair,
        None => return None,
    };
    let source_amount_swapped = match new_swap_source_amount.checked_sub(swap_source_amount) {
        Some(v) => v,
        None => return None,
    };
    let destination_amount_swapped = match swap_destination_amount.checked_sub(
        new_swap_destination_amount,
    ) {
        Some(v) => v,
        None => return None,
    };
    let destination_amount_swapped = match map_zero_to_none(destination_amount_swapped) {
        Some(v) => v,
        None => return None,
    };
    proof {
        lemma_swap_keeps_product(source_amount, swap_source_amount, swap_destination_amount);
    }
    Some(SwapWithoutFeesResult { source_amount_swapped, destination_amount_swapped })
}

/// Converts pool tokens to the trading tokens they stand for: the simple
/// ratio `pool_tokens * reserve / supply`, rounded as asked.
pub fn pool_tokens_to_trading_tokens(
    pool_tokens: u128,
    pool_token_supply: u128,
    swap_token_a_amount: u128,
    swap_token_b_amount: u128,
    round_direction: RoundDirection,
) -> (r: Option<TradingTokenResult>)
    ensures
        r == trading_tokens_of(
            pool_tokens,
            pool_token_supply,
            swap_token_a_amount,
            swap_token_b_amount,
            round_direction,
        ),
{
    let product_a = match pool_tokens.checked_mul(swap_token_a_amount) {
        Some(v) => v,
        None => return None,
    };
    if pool_token_supply == 0 {
        return None;
    }
    let product_b = match pool_tokens.checked_mul(swap_token_b_amount) {
        Some(v) => v,
        None => return None,
    };
    let token_a_amount = share(product_a, pool_token_supply, round_direction);
    let token_b_amount = share(product_b, pool_token_supply, round_direction);
    Some(TradingTokenResult { token_a_amount, token_b_amount })
}

fn share(product: u128, supply: u128, round_direction: RoundDirection) -> (r: u128)
    requires
        supply > 0,
    ensures
        r as int == (match round_direction {
            RoundDirection::Floor => (product / supply) as int,
            RoundDirection::Ceiling => if product % supply > 0 && product / supply > 0 {
                product / supply + 1
            } else {
                (product / supply) as int
            },
        }),
{
    let floored = product / supply;
    match round_direction {
        RoundDirection::Floor => floored,
        RoundDirection::Ceiling => {
            if product % supply > 0 && floored > 0 {
                assert(floored < u128::MAX) by (nonlinear_arith)
                    requires
                        floored == product / supply,
                        product % supply > 0,
                        supply > 0,
                        product <= u128::MAX,
                ;
                floored + 1
            } else {
                floored
            }
        },
    }
}

/// The pool tokens that a fraction (a scaled value) of `pool_supply` comes
/// to, rounded to a whole number as asked.
pub open spec fn tokens_for_fraction_of(
    fraction: int,
    pool_supply: u128,
    round_direction: RoundDirection,
) -> Option<u128> {
    match precise_mul(pool_supply * one_scaled(), fraction) {
        None => None,
        Some(pool_tokens) => {
            let rounded = match round_direction {
                RoundDirection::Floor => Some(precise_floor(pool_tokens)),
                RoundDirection::Ceiling => precise_ceiling(pool_tokens),
            };
            match rounded {
                None => None,
                Some(x) => if precise_to_integer(x) <= u128::MAX {
                    Some(precise_to_integer(x) as u128)
                } else {
                    None
                },
            }
        },
    }
}

/// The reserve on the side that `trade_direction` takes in.
pub open spec fn source_reserve(
    swap_token_a_amount: u128,
    swap_token_b_amount: u128,
    trade_direction: TradeDirection,
) -> u128 {
    match trade_direction {
        TradeDirection::AtoB => swap_token_a_amount,
        TradeDirection::BtoA => swap_token_b_amount,
    }
}

/// `1 + source_amount / swap_source_amount`, the growth of the source
/// reserve on a single-sided deposit.
pub open spec fn deposit_growth_of(source_amount: u128, swap_source_amount: u128) -> Option<int> {
    match precise_div(source_amount * one_scaled(), swap_source_amount * one_scaled()) {
        None => None,
        Some(ratio) => fit256(one_scaled() + ratio),
    }
}

/// `1 - destination_amount / swap_source_amount`, the part of the reserve
/// left after a single-sided withdrawal; zero when more is asked than held.
pub open spec fn withdraw_remainder_of(destination_amount: u128, swap_source_amount: u128) -> Option<
    int,
> {
    match precise_div(destination_amount * one_scaled(), swap_source_amount * one_scaled()) {
        None => None,
        Some(ratio) => if ratio <= one_scaled() {
            Some(one_scaled() - ratio)
        } else {
            Some(0)
        },
    }
}

/// The pool tokens minted for a deposit whose reserve grows by the square
/// of `root`: `pool_supply * (root - 1)`.
pub open spec fn deposit_tokens_from_root_of(
    root: int,
    pool_supply: u128,
    round_direction: RoundDirection,
) -> Option<u128> {
    match precise_sub(root, one_scaled()) {
        None => None,
        Some(fraction) => tokens_for_fraction_of(fraction, pool_supply, round_direction),
    }
}

/// The pool tokens burnt for a withdrawal that leaves the square of `root`
/// of the reserve: `pool_supply * (1 - root)`.
pub open spec fn withdraw_tokens_from_root_of(
    root: int,
    pool_supply: u128,
    round_direction: RoundDirection,
) -> Option<u128> {
    match precise_sub(one_scaled(), root) {
        None => None,
        Some(fraction) => tokens_for_fraction_of(fraction, pool_supply, round_direction),
    }
}

/// Pool tokens for a single-sided deposit: `supply * (sqrt(1 + x / s) - 1)`.
pub open spec fn deposit_single_of(
    source_amount: u128,
    swap_token_a_amount: u128,
    swap_token_b_amount: u128,
    pool_supply: u128,
    trade_direction: TradeDirection,
    round_direction: RoundDirection,
) -> Option<u128> {
    let swap_source_amount = source_reserve(
        swap_token_a_amount,
        swap_token_b_amount,
        trade_direction,
    );
    match deposit_growth_of(source_amount, swap_source_amount) {
        None => None,
        Some(base) => match sqrt_of(base) {
            None => None,
            Some(root) => deposit_tokens_from_root_of(root, pool_supply, round_direction),
        },
    }
}

/// Pool tokens for a single-sided withdrawal: `supply * (1 - sqrt(1 - x / s))`.
pub open spec fn withdraw_single_of(
    destination_amount: u128,
    swap_token_a_amount: u128,
    swap_token_b_amount: u128,
    pool_supply: u128,
    trade_direction: TradeDirection,
    round_direction: RoundDirection,
) -> Option<u128> {
    let swap_source_amount = source_reserve(
        swap_token_a_amount,
        swap_token_b_amount,
        trade_direction,
    );
    match withdraw_remainder_of(destination_amount, swap_source_amount) {
        None => None,
        Some(base) => match sqrt_of(base) {
            None => None,
            Some(root) => withdraw_tokens_from_root_of(root, pool_supply, round_direction),
        },
    }
}

/// The square root of the product of the reserves, scaled.
pub open spec fn normalized_value_of(swap_token_a_amount: u128, swap_token_b_amount: u128) -> Option<
    int,
> {
    match precise_mul(swap_token_a_amount * one_scaled(), swap_token_b_amount * one_scaled()) {
        None => None,
        Some(product) => sqrt_of(product),
    }
}

/// The pool tokens that a fraction of `pool_supply` comes to, rounded to a
/// whole number as asked.
pub fn pool_tokens_for_fraction(
    fraction: &FixedPointNumber,
    pool_supply: u128,
    round_direction: RoundDirection,
) -> (r: Option<u128>)
    ensures
        r == tokens_for_fraction_of(fraction.val(), pool_supply, round_direction),
{
    let pool_supply = FixedPointNumber::new(pool_supply)?;
    let pool_tokens = pool_supply.checked_mul(fraction)?;
    let rounded = match round_direction {
        RoundDirection::Floor => pool_tokens.floor()?,
        RoundDirection::Ceiling => pool_tokens.ceiling()?,
    };
    rounded.to_u128()
}

/// Pool tokens minted for a single-sided deposit, given the square root of
/// the growth of the source reserve: `pool_supply * (root - 1)`.
pub fn deposit_pool_tokens_from_root(
    root: &FixedPointNumber,
    pool_supply: u128,
    round_direction: RoundDirection,
) -> (r: Option<u128>)
    ensures
        r == deposit_tokens_from_root_of(root.val(), pool_supply, round_direction),
{
    let one = FixedPointNumber::new(1)?;
    let fraction = root.checked_sub(&one)?;
    pool_tokens_for_fraction(&fraction, pool_supply, round_direction)
}

/// Pool tokens burnt for a single-sided withdrawal, given the square root of
/// the part of the reserve left: `pool_supply * (1 - root)`.
pub fn withdraw_pool_tokens_from_root(
    root: &FixedPointNumber,
    pool_supply: u128,
    round_direction: RoundDirection,
) -> (r: Option<u128>)
    ensures
        r == withdraw_tokens_from_root_of(root.val(), pool_supply, round_direction),
{
    let one = FixedPointNumber::new(1)?;
    let fraction = one.checked_sub(root)?;
    pool_tokens_for_fraction(&fraction, pool_supply, round_direction)
}

/// Pool tokens for a deposit of one token kind, by the Balancer formula for
/// two tokens of equal weight: `supply * (sqrt(1 + source / reserve) - 1)`.
pub fn deposit_single_token_type(
    source_amount: u128,
    swap_token_a_amount: u128,
    swap_token_b_amount: u128,
    pool_supply: u128,
    trade_direction: TradeDirection,
    round_direction: RoundDirection,
) -> (r: Option<u128>)
    ensures
        r == deposit_single_of(
            source_amount,
            swap_token_a_amount,
            swap_token_b_amount,
            pool_supply,
            trade_direction,
            round_direction,
        ),
{
    let swap_source_amount = match trade_direction {
        TradeDirection::AtoB => swap_token_a_amount,
        TradeDirection::BtoA => swap_token_b_amount,
    };
    let swap_source_amount = FixedPointNumber::new(swap_source_amount)?;
    let source_amount = FixedPointNumber::new(source_amount)?;
    let ratio = source_amount.checked_div(&swap_source_amount)?;
    let one = FixedPointNumber::new(1)?;
    let base = one.checked_add(&ratio)?;
    let root = base.sqrt()?;
    deposit_pool_tokens_from_root(&root, pool_supply, round_direction)
}

/// Pool tokens for a withdrawal of one token kind, by the Balancer formula
/// for two tokens of equal weight: `supply * (1 - sqrt(1 - amount / reserve))`.
pub fn withdraw_single_token_type_exact_out(
    source_amount: u128,
    swap_token_a_amount: u128,
    swap_token_b_amount: u128,
    pool_supply: u128,
    trade_direction: TradeDirection,
    round_direction: RoundDirection,
) -> (r: Option<u128>)
    ensures
        r == withdraw_single_of(
            source_amount,
            swap_token_a_amount,
            swap_token_b_amount,
            pool_supply,
            trade_direction,
            round_direction,
        ),
{
    let swap_source_amount = match trade_direction {
        TradeDirection::AtoB => swap_token_a_amount,
        TradeDirection::BtoA => swap_token_b_amount,
    };
    let swap_source_amount = FixedPointNumber::new(swap_source_amount)?;
    let source_amount = FixedPointNumber::new(source_amount)?;
    let ratio = source_amount.checked_div(&swap_source_amount)?;
    let one = FixedPointNumber::new(1)?;
    let base = match one.checked_sub(&ratio) {
        Some(b) => b,
        None => FixedPointNumber::new(0)?,
    };
    let root = base.sqrt()?;
    withdraw_pool_tokens_from_root(&root, pool_supply, round_direction)
}

/// The total normalized value of the pool: the square root of the product
/// of the reserves.
pub fn normalized_value(swap_token_a_amount: u128, swap_token_b_amount: u128) -> (r: Option<
    FixedPointNumber,
>)
    ensures
        opt_val(r) == normalized_value_of(swap_token_a_amount, swap_token_b_amount),
{
    let swap_token_a_amount = FixedPointNumber::new(swap_token_a_amount)?;
    let swap_token_b_amount = FixedPointNumber::new(swap_token_b_amount)?;
    swap_token_a_amount.checked_mul(&swap_token_b_amount)?.sqrt()
}

impl ConstantProductCurve {
    /// Swaps keeping `reserve_source * reserve_destination` from falling.
    pub fn swap_without_fees(
        &self,
        source_amount: u128,
        swap_source_amount: u128,
        swap_destination_amount: u128,
        _trade_direction: TradeDirection,
    ) -> (r: Option<SwapWithoutFeesResult>)
        ensures
            r == swap_of(source_amount, swap_source_amount, swap_destination_amount),
    {
        swap(source_amount, swap_source_amount, swap_destination_amount)
    }

    /// Converts pool tokens to trading tokens by the simple ratio.
    pub fn pool_tokens_to_trading_tokens(
        &self,
        pool_tokens: u128,
        pool_token_supply: u128,
        swap_token_a_amount: u128,
        swap_token_b_amount: u128,
        round_direction: RoundDirection,
    ) -> (r: Option<TradingTokenResult>)
        ensures
            r == trading_tokens_of(
                pool_tokens,
                pool_token_supply,
                swap_token_a_amount,
                swap_token_b_amount,
                round_direction,
            ),
    {
        pool_tokens_to_trading_tokens(
            pool_tokens,
            pool_token_supply,
            swap_token_a_amount,
            swap_token_b_amount,
            round_direction,
        )
    }

    /// Pool tokens for a deposit of one token kind, rounded down.
    pub fn deposit_single_token_type(
        &self,
        source_amount: u128,
        swap_token_a_amount: u128,
        swap_token_b_amount: u128,
        pool_supply: u128,
        trade_direction: TradeDirection,
    ) -> (r: Option<u128>)
        ensures
            r == deposit_single_of(
                source_amount,
                swap_token_a_amount,
                swap_token_b_amount,
                pool_supply,
                trade_direction,
                RoundDirection::Floor,
            ),
    {
        deposit_single_token_type(
            source_amount,
            swap_token_a_amount,
            swap_token_b_amount,
            pool_supply,
            trade_direction,
            RoundDirection::Floor,
        )
    }

    /// Pool tokens for a withdrawal of one token kind, rounded as asked.
    pub fn withdraw_single_token_type_exact_out(
        &self,
        source_amount: u128,
        swap_token_a_amount: u128,
        swap_token_b_amount: u128,
        pool_supply: u128,
        trade_direction: TradeDirection,
        round_direction: RoundDirection,
    ) -> (r: Option<u128>)
        ensures
            r == withdraw_single_of(
                source_amount,
                swap_token_a_amount,
                swap_token_b_amount,
                pool_supply,
                trade_direction,
                round_direction,
            ),
    {
        withdraw_single_token_type_exact_out(
            source_amount,
            swap_token_a_amount,
            swap_token_b_amount,
            pool_supply,
            trade_direction,
            round_direction,
        )
    }

    /// The square root of the product of the reserves.
    pub fn normalized_value(&self, swap_token_a_amount: u128, swap_token_b_amount: u128) -> (r:
        Option<FixedPointNumber>)
        ensures
            opt_val(r) == normalized_value_of(swap_token_a_amount, swap_token_b_amount),
    {
        normalized_value(swap_token_a_amount, swap_token_b_amount)
    }

    /// The curve has no parameters to check.
    pub fn validate(&self) -> (r: Result<(), SwapError>)
        ensures
            r == Ok::<(), SwapError>(()),
    {
        Ok(())
    }
}

} // verus!
