//! Laws on how pool operations preserve the value held for pool tokens.

use crate::curve::base::{reserves_ab, CurveCalculator};
use crate::curve::calculator::{RoundDirection, TradeDirection};
use crate::curve::constant_price::{price_swap_of, price_trading_tokens_of, price_value_of};
use crate::curve::constant_product::{lemma_swap_keeps_product, share_of, trading_tokens_of};
use crate::curve::wide::ceil_div_pair;
use vstd::prelude::*;

verus! {

/// A swap without fees never lowers the curve's level: the product of the
/// reserves (with the offset, on the offset curve), or their value at the
/// fixed price, is at least what it was.
pub proof fn lemma_swap_does_not_lower_value(
    calculator: CurveCalculator,
    source_amount: u128,
    swap_source_amount: u128,
    swap_destination_amount: u128,
    trade_direction: TradeDirection,
)
    requires
        calculator.spec_swap_without_fees(
            source_amount,
            swap_source_amount,
            swap_destination_amount,
            trade_direction,
        ) is Some,
    ensures
        ({
            let res = calculator.spec_swap_without_fees(
                source_amount,
                swap_source_amount,
                swap_destination_amount,
                trade_direction,
            ).unwrap();
            let (a0, b0) = reserves_ab(
                swap_source_amount as int,
                swap_destination_amount as int,
                trade_direction,
            );
            let (a1, b1) = reserves_ab(
                swap_source_amount + res.source_amount_swapped,
                swap_destination_amount - res.destination_amount_swapped,
                trade_direction,
            );
            calculator.pool_level(a1, b1) >= calculator.pool_level(a0, b0)
        }),
{
    let s = swap_source_amount as int;
    let d = swap_destination_amount as int;
    match calculator {
        CurveCalculator::ConstantProduct(_) => {
            lemma_swap_keeps_product(source_amount, swap_source_amount, swap_destination_amount);
            let res = calculator.spec_swap_without_fees(
                source_amount,
                swap_source_amount,
                swap_destination_amount,
                trade_direction,
            ).unwrap();
            let s1 = s + res.source_amount_swapped;
            let d1 = d - res.destination_amount_swapped;
            assert(d1 * s1 >= d * s) by (nonlinear_arith)
                requires
                    s1 * d1 >= s * d,
            ;
        },
        CurveCalculator::ConstantPrice(c) => {
            let price = c.token_b_price as int;
            let res = price_swap_of(c.token_b_price, source_amount, trade_direction).unwrap();
            match trade_direction {
                TradeDirection::AtoB => {
                    vstd::arithmetic::div_mod::lemma_fundamental_div_mod(
                        source_amount as int,
                        price,
                    );
                    assert(res.source_amount_swapped == res.destination_amount_swapped * price)
                        by (nonlinear_arith)
                        requires
                            source_amount == price * (source_amount as int / price) + (
                            source_amount as int % price),
                            res.source_amount_swapped == source_amount - (source_amount as int
                                % price),
                            res.destination_amount_swapped == source_amount as int / price,
                    ;
                    assert((d - res.destination_amount_swapped) * price == d * price
                        - res.destination_amount_swapped * price) by (nonlinear_arith);
                },
                TradeDirection::BtoA => {
                    assert((s + res.source_amount_swapped) * price == s * price
                        + res.source_amount_swapped * price) by (nonlinear_arith);
                },
            }
        },
        CurveCalculator::Offset(c) => {
            let off = c.token_b_offset as int;
            let res = c.spec_swap(
                source_amount,
                swap_source_amount,
                swap_destination_amount,
                trade_direction,
            ).unwrap();
            match trade_direction {
                TradeDirection::AtoB => {
                    lemma_swap_keeps_product(
                        source_amount,
                        swap_source_amount,
                        (swap_destination_amount + c.token_b_offset) as u128,
                    );
                    assert((s + res.source_amount_swapped) * (d - res.destination_amount_swapped
                        + off) >= s * (d + off)) by (nonlinear_arith)
                        requires
                            (s + res.source_amount_swapped) * (d + off
                                - res.destination_amount_swapped) >= s * (d + off),
                    ;
                },
                TradeDirection::BtoA => {
                    lemma_swap_keeps_product(
                        source_amount,
                        (swap_source_amount + c.token_b_offset) as u128,
                        swap_destination_amount,
                    );
                    assert((d - res.destination_amount_swapped) * (s + res.source_amount_swapped
                        + off) >= d * (s + off)) by (nonlinear_arith)
                        requires
                            (s + off + res.source_amount_swapped) * (d
                                - res.destination_amount_swapped) >= (s + off) * d,
                    ;
                },
            }
        },
    }
}

/// A deposit of both token kinds, priced with rounding up, never lowers
/// the reserves per pool token: `new_reserve * old_supply >= old_reserve *
/// new_supply` for each token, whenever both amounts taken are nonzero (as
/// the deposit operation demands).
pub proof fn lemma_deposit_does_not_dilute(
    pool_tokens: u128,
    pool_token_supply: u128,
    swap_token_a_amount: u128,
    swap_token_b_amount: u128,
)
    requires
        trading_tokens_of(
            pool_tokens,
            pool_token_supply,
            swap_token_a_amount,
            swap_token_b_amount,
            RoundDirection::Ceiling,
        ) matches Some(res) && res.token_a_amount > 0 && res.token_b_amount > 0,
    ensures
        ({
            let res = trading_tokens_of(
                pool_tokens,
                pool_token_supply,
                swap_token_a_amount,
                swap_token_b_amount,
                RoundDirection::Ceiling,
            ).unwrap();
            &&& (swap_token_a_amount + res.token_a_amount) * pool_token_supply
                >= swap_token_a_amount * (pool_token_supply + pool_tokens)
            &&& (swap_token_b_amount + res.token_b_amount) * pool_token_supply
                >= swap_token_b_amount * (pool_token_supply + pool_tokens)
        }),
{
    lemma_ceiling_share_covers(pool_tokens, pool_token_supply, swap_token_a_amount);
    lemma_ceiling_share_covers(pool_tokens, pool_token_supply, swap_token_b_amount);
}

proof fn lemma_ceiling_share_covers(pool_tokens: u128, supply: u128, amount: u128)
    requires
        supply > 0,
        share_of(pool_tokens, supply, amount, RoundDirection::Ceiling) > 0,
    ensures
        (amount + share_of(pool_tokens, supply, amount, RoundDirection::Ceiling)) * supply
            >= amount * (supply + pool_tokens),
        share_of(pool_tokens, supply, amount, RoundDirection::Ceiling) <= pool_tokens * amount,
{
    let product = pool_tokens * amount;
    let q = product / (supply as int);
    let r = product % (supply as int);
    let t = share_of(pool_tokens, supply, amount, RoundDirection::Ceiling);
    vstd::arithmetic::div_mod::lemma_fundamental_div_mod(product, supply as int);
    assert(t * supply >= product) by (nonlinear_arith)
        requires
            product == supply * q + r,
            0 <= r < supply,
            t == (if r > 0 && q > 0 {
                q + 1
            } else {
                q
            }),
            t > 0,
    ;
    assert(t <= product) by (nonlinear_arith)
        requires
            product == supply * q + r,
            0 <= r < supply,
            t == (if r > 0 && q > 0 {
                q + 1
            } else {
                q
            }),
            q >= 0,
    ;
    assert((amount + t) * supply >= amount * (supply + pool_tokens)) by (nonlinear_arith)
        requires
            t * supply >= pool_tokens * amount,
    ;
}

/// A withdrawal of both token kinds, priced with rounding down, never
/// lowers the reserves per pool token that remain.
pub proof fn lemma_withdraw_does_not_dilute(
    pool_tokens: u128,
    pool_token_supply: u128,
    swap_token_a_amount: u128,
    swap_token_b_amount: u128,
)
    requires
        trading_tokens_of(
            pool_tokens,
            pool_token_supply,
            swap_token_a_amount,
            swap_token_b_amount,
            RoundDirection::Floor,
        ) is Some,
    ensures
        ({
            let res = trading_tokens_of(
                pool_tokens,
                pool_token_supply,
                swap_token_a_amount,
                swap_token_b_amount,
                RoundDirection::Floor,
            ).unwrap();
            &&& (swap_token_a_amount - res.token_a_amount) * pool_token_supply
                >= swap_token_a_amount * (pool_token_supply - pool_tokens)
            &&& (swap_token_b_amount - res.token_b_amount) * pool_token_supply
                >= swap_token_b_amount * (pool_token_supply - pool_tokens)
        }),
{
    lemma_floor_share_within(pool_tokens, pool_token_supply, swap_token_a_amount);
    lemma_floor_share_within(pool_tokens, pool_token_supply, swap_token_b_amount);
}

proof fn lemma_floor_share_within(pool_tokens: u128, supply: u128, amount: u128)
    requires
        supply > 0,
    ensures
        (amount - share_of(pool_tokens, supply, amount, RoundDirection::Floor)) * supply >= amount
            * (supply - pool_tokens),
{
    let product = pool_tokens * amount;
    let q = product / (supply as int);
    vstd::arithmetic::div_mod::lemma_fundamental_div_mod(product, supply as int);
    assert(q * supply <= product) by (nonlinear_arith)
        requires
            product == supply * q + product % (supply as int),
            0 <= product % (supply as int),
    ;
    assert((amount - q) * supply >= amount * (supply - pool_tokens)) by (nonlinear_arith)
        requires
            q * supply <= pool_tokens * amount,
    ;
}

/// On the constant-price curve, a deposit of both token kinds, priced with
/// rounding up, never lowers the normalized value per pool token:
/// `new_value * old_supply >= old_value * new_supply`. Stated where the
/// value is taken without the halving that guards against overflow.
pub proof fn lemma_price_deposit_does_not_dilute(
    token_b_price: u64,
    pool_tokens: u128,
    pool_token_supply: u128,
    swap_token_a_amount: u128,
    swap_token_b_amount: u128,
)
    requires
        price_trading_tokens_of(
            token_b_price,
            pool_tokens,
            pool_token_supply,
            swap_token_a_amount,
            swap_token_b_amount,
            RoundDirection::Ceiling,
        ) matches Some(res) && swap_token_a_amount + res.token_a_amount + (swap_token_b_amount
            + res.token_b_amount) * token_b_price <= u128::MAX,
        swap_token_a_amount + swap_token_b_amount * token_b_price <= u128::MAX,
    ensures
        ({
            let res = price_trading_tokens_of(
                token_b_price,
                pool_tokens,
                pool_token_supply,
                swap_token_a_amount,
                swap_token_b_amount,
                RoundDirection::Ceiling,
            ).unwrap();
            let old_value = price_value_of(
                token_b_price,
                swap_token_a_amount,
                swap_token_b_amount,
            );
            let new_value = price_value_of(
                token_b_price,
                (swap_token_a_amount + res.token_a_amount) as u128,
                (swap_token_b_amount + res.token_b_amount) as u128,
            );
            &&& old_value is Some
            &&& new_value is Some
            &&& new_value.unwrap() * pool_token_supply >= old_value.unwrap() * (pool_token_supply
                + pool_tokens)
        }),
{
    let price = token_b_price as int;
    let supply = pool_token_supply as int;
    let res = price_trading_tokens_of(
        token_b_price,
        pool_tokens,
        pool_token_supply,
        swap_token_a_amount,
        swap_token_b_amount,
        RoundDirection::Ceiling,
    ).unwrap();
    let level0 = swap_token_a_amount + swap_token_b_amount * price;
    let v0 = level0 / 2;
    let product = pool_tokens * v0;
    let (ta, _) = ceil_div_pair(product, supply).unwrap();
    let (in_b, _) = ceil_div_pair(product, price).unwrap();
    let (tb, _) = ceil_div_pair(in_b, supply).unwrap();
    lemma_ceil_div_pair_covers(product, supply);
    lemma_ceil_div_pair_covers(product, price);
    lemma_ceil_div_pair_covers(in_b, supply);
    lemma_ceil_div_pair_at_least_floor(product, supply);
    lemma_ceil_div_pair_at_least_floor(product, price);
    lemma_ceil_div_pair_at_least_floor(in_b, supply);
    let t = tb * price;
    assert(t * supply >= product) by (nonlinear_arith)
        requires
            tb * supply >= in_b,
            in_b * price >= product,
            t == tb * price,
            price > 0,
            tb >= 0,
            supply > 0,
    ;
    let level1 = swap_token_a_amount + res.token_a_amount + (swap_token_b_amount
        + res.token_b_amount) * price;
    assert(level1 == level0 + ta + t) by (nonlinear_arith)
        requires
            level1 == swap_token_a_amount + res.token_a_amount + (swap_token_b_amount
                + res.token_b_amount) * price,
            level0 == swap_token_a_amount + swap_token_b_amount * price,
            res.token_a_amount == ta,
            res.token_b_amount == tb,
            t == tb * price,
    ;
    assert(swap_token_b_amount + tb <= (swap_token_b_amount + tb) * price) by (nonlinear_arith)
        requires
            price >= 1,
            swap_token_b_amount + tb >= 0,
    ;
    assert(price_value_of(
        token_b_price,
        (swap_token_a_amount + res.token_a_amount) as u128,
        (swap_token_b_amount + res.token_b_amount) as u128,
    ) == Some(level1 / 2));
    let m = if ta <= t {
        ta
    } else {
        t
    };
    let v1 = level1 / 2;
    assert(v1 >= v0 + m);
    assert(m * supply >= product);
    assert(v1 * supply >= v0 * (supply + pool_tokens)) by (nonlinear_arith)
        requires
            v1 >= v0 + m,
            m * supply >= product,
            product == pool_tokens * v0,
            supply > 0,
            v0 >= 0,
    ;
}

/// On the constant-price curve, a withdrawal of both token kinds, priced
/// with rounding down, never lowers the normalized value per pool token
/// that remains, when the amounts paid are within the reserves. Stated
/// where the value is taken without the halving that guards against
/// overflow.
pub proof fn lemma_price_withdraw_does_not_dilute(
    token_b_price: u64,
    pool_tokens: u128,
    pool_token_supply: u128,
    swap_token_a_amount: u128,
    swap_token_b_amount: u128,
)
    requires
        price_trading_tokens_of(
            token_b_price,
            pool_tokens,
            pool_token_supply,
            swap_token_a_amount,
            swap_token_b_amount,
            RoundDirection::Floor,
        ) matches Some(res) && res.token_a_amount <= swap_token_a_amount && res.token_b_amount
            <= swap_token_b_amount,
        swap_token_a_amount + swap_token_b_amount * token_b_price <= u128::MAX,
    ensures
        ({
            let res = price_trading_tokens_of(
                token_b_price,
                pool_tokens,
                pool_token_supply,
                swap_token_a_amount,
                swap_token_b_amount,
                RoundDirection::Floor,
            ).unwrap();
            let old_value = price_value_of(
                token_b_price,
                swap_token_a_amount,
                swap_token_b_amount,
            );
            let new_value = price_value_of(
                token_b_price,
                (swap_token_a_amount - res.token_a_amount) as u128,
                (swap_token_b_amount - res.token_b_amount) as u128,
            );
            &&& old_value is Some
            &&& new_value is Some
            &&& new_value.unwrap() * pool_token_supply >= old_value.unwrap() * (pool_token_supply
                - pool_tokens)
        }),
{
    let price = token_b_price as int;
    let supply = pool_token_supply as int;
    let res = price_trading_tokens_of(
        token_b_price,
        pool_tokens,
        pool_token_supply,
        swap_token_a_amount,
        swap_token_b_amount,
        RoundDirection::Floor,
    ).unwrap();
    let level0 = swap_token_a_amount + swap_token_b_amount * price;
    let v0 = level0 / 2;
    let product = pool_tokens * v0;
    let ta = product / supply;
    let in_b = product / price;
    let tb = in_b / supply;
    vstd::arithmetic::div_mod::lemma_fundamental_div_mod(product, supply);
    vstd::arithmetic::div_mod::lemma_fundamental_div_mod(product, price);
    vstd::arithmetic::div_mod::lemma_fundamental_div_mod(in_b, supply);
    vstd::arithmetic::div_mod::lemma_div_is_ordered_by_denominator(product, 1, supply);
    vstd::arithmetic::div_mod::lemma_div_basics(product);
    vstd::arithmetic::div_mod::lemma_div_is_ordered_by_denominator(product, 1, price);
    vstd::arithmetic::div_mod::lemma_div_is_ordered_by_denominator(in_b, 1, supply);
    vstd::arithmetic::div_mod::lemma_div_basics(in_b);
    assert(ta * supply <= product) by (nonlinear_arith)
        requires
            product == supply * ta + product % supply,
            0 <= product % supply,
    ;
    let t = tb * price;
    assert(t * supply <= product) by (nonlinear_arith)
        requires
            in_b == supply * tb + in_b % supply,
            0 <= in_b % supply,
            product == price * in_b + product % price,
            0 <= product % price,
            price > 0,
            t == tb * price,
    ;
    let level1 = swap_token_a_amount - res.token_a_amount + (swap_token_b_amount
        - res.token_b_amount) * price;
    assert(level1 == level0 - ta - t) by (nonlinear_arith)
        requires
            level1 == swap_token_a_amount - res.token_a_amount + (swap_token_b_amount
                - res.token_b_amount) * price,
            level0 == swap_token_a_amount + swap_token_b_amount * price,
            res.token_a_amount == ta,
            res.token_b_amount == tb,
            t == tb * price,
    ;
    let big = if ta >= t {
        ta
    } else {
        t
    };
    let v1 = level1 / 2;
    assert(v1 >= v0 - big);
    assert(big * supply <= product);
    assert(v1 * supply >= v0 * (supply - pool_tokens)) by (nonlinear_arith)
        requires
            v1 >= v0 - big,
            big * supply <= product,
            product == pool_tokens * v0,
            supply > 0,
    ;
}

proof fn lemma_ceil_div_pair_covers(dividend: int, divisor: int)
    requires
        dividend >= 0,
        divisor > 0,
    ensures
        ceil_div_pair(dividend, divisor) matches Some((q, _)) ==> q * divisor >= dividend,
{
    let q = dividend / divisor;
    let r = dividend % divisor;
    vstd::arithmetic::div_mod::lemma_fundamental_div_mod(dividend, divisor);
    assert(r == 0 ==> q * divisor >= dividend) by (nonlinear_arith)
        requires
            dividend == divisor * q + r,
    ;
    assert(r != 0 ==> (q + 1) * divisor >= dividend) by (nonlinear_arith)
        requires
            dividend == divisor * q + r,
            0 <= r < divisor,
    ;
}

proof fn lemma_ceil_div_pair_at_least_floor(dividend: int, divisor: int)
    requires
        dividend >= 0,
        divisor > 0,
    ensures
        ceil_div_pair(dividend, divisor) matches Some((q, _)) ==> dividend / divisor <= q
            <= dividend,
        ceil_div_pair(dividend, divisor) is None <==> dividend / divisor == 0,
{
    let q = dividend / divisor;
    let r = dividend % divisor;
    vstd::arithmetic::div_mod::lemma_fundamental_div_mod(dividend, divisor);
    if q != 0 && r != 0 {
        assert(q + 1 <= dividend) by (nonlinear_arith)
            requires
                dividend == divisor * q + r,
                0 < r < divisor,
                q >= 1,
        ;
    }
    if q != 0 && r == 0 {
        assert(q <= dividend) by (nonlinear_arith)
            requires
                dividend == divisor * q + r,
                r == 0,
                divisor >= 1,
                q >= 1,
        ;
    }
}

/// Rounding up never gives less than rounding down, and where rounding down
/// gives nothing of a token, rounding up gives nothing of it either (or
/// fails): a dust amount of pool tokens never takes a whole token. For token
/// B on the constant-price curve, which rounds up twice, only the first part
/// is stated.
pub proof fn lemma_ceiling_rounding(
    calculator: CurveCalculator,
    pool_tokens: u128,
    pool_token_supply: u128,
    swap_token_a_amount: u128,
    swap_token_b_amount: u128,
)
    requires
        calculator.spec_pool_tokens_to_trading_tokens(
            pool_tokens,
            pool_token_supply,
            swap_token_a_amount,
            swap_token_b_amount,
            RoundDirection::Floor,
        ) is Some,
    ensures
        ({
            let floor = calculator.spec_pool_tokens_to_trading_tokens(
                pool_tokens,
                pool_token_supply,
                swap_token_a_amount,
                swap_token_b_amount,
                RoundDirection::Floor,
            ).unwrap();
            let ceiling = calculator.spec_pool_tokens_to_trading_tokens(
                pool_tokens,
                pool_token_supply,
                swap_token_a_amount,
                swap_token_b_amount,
                RoundDirection::Ceiling,
            );
            &&& ceiling matches Some(c) ==> c.token_a_amount >= floor.token_a_amount
                && c.token_b_amount >= floor.token_b_amount
            &&& floor.token_a_amount == 0 ==> (ceiling matches Some(c) ==> c.token_a_amount == 0)
            &&& !(calculator is ConstantPrice) && floor.token_b_amount == 0 ==> (ceiling matches Some(
                c,
            ) ==> c.token_b_amount == 0)
        }),
{
    match calculator {
        CurveCalculator::ConstantPrice(c) => {
            let price = c.token_b_price as int;
            let supply = pool_token_supply as int;
            let total = price_value_of(
                c.token_b_price,
                swap_token_a_amount,
                swap_token_b_amount,
            ).unwrap();
            let product = pool_tokens * total;
            assert(product <= u128::MAX && supply > 0 && price > 0);
            vstd::arithmetic::div_mod::lemma_div_basics(product);
            vstd::arithmetic::div_mod::lemma_div_is_ordered_by_denominator(product, 1, supply);
            vstd::arithmetic::div_mod::lemma_div_is_ordered_by_denominator(product, 1, price);
            vstd::arithmetic::div_mod::lemma_div_basics(product / price);
            vstd::arithmetic::div_mod::lemma_div_is_ordered_by_denominator(
                product / price,
                1,
                supply,
            );
            lemma_ceil_div_pair_at_least_floor(product, supply);
            lemma_ceil_div_pair_at_least_floor(product, price);
            if ceil_div_pair(product, supply) is Some && ceil_div_pair(product, price) is Some {
                let in_b = ceil_div_pair(product, price).unwrap().0;
                lemma_ceil_div_pair_at_least_floor(in_b, supply);
                vstd::arithmetic::div_mod::lemma_div_is_ordered(product / price, in_b, supply);
            }
        },
        _ => {
            lemma_share_bounds(pool_tokens, pool_token_supply, swap_token_a_amount);
            lemma_share_bounds(pool_tokens, pool_token_supply, swap_token_b_amount);
        },
    }
}

proof fn lemma_share_bounds(pool_tokens: u128, supply: u128, amount: u128)
    requires
        supply > 0,
    ensures
        0 <= share_of(pool_tokens, supply, amount, RoundDirection::Floor) <= share_of(
            pool_tokens,
            supply,
            amount,
            RoundDirection::Ceiling,
        ) <= pool_tokens * amount,
        share_of(pool_tokens, supply, amount, RoundDirection::Floor) == 0 ==> share_of(
            pool_tokens,
            supply,
            amount,
            RoundDirection::Ceiling,
        ) == 0,
{
    let product = pool_tokens * amount;
    let q = product / (supply as int);
    let r = product % (supply as int);
    vstd::arithmetic::div_mod::lemma_fundamental_div_mod(product, supply as int);
    assert(0 <= q <= product && (r > 0 && q > 0 ==> q + 1 <= product)) by (nonlinear_arith)
        requires
            product == supply * q + r,
            0 <= r < supply,
            product >= 0,
    ;
}

} // verus!
