//! The offset curve: a constant-product curve with a virtual, never
//! withdrawable amount added to the token B reserve.

use crate::curve::calculator::{
    RoundDirection, SwapWithoutFeesResult, TradeDirection, TradingTokenResult,
};
use crate::curve::constant_product::{
    deposit_single_of, deposit_single_token_type, normalized_value, normalized_value_of,
    pool_tokens_to_trading_tokens, swap, swap_of, trading_tokens_of, withdraw_single_of,
    withdraw_single_token_type_exact_out,
};
use crate::curve::precise::{opt_val, FixedPointNumber};
use crate::error::SwapError;
use vstd::prelude::*;

verus! {

/// A constant-product curve whose token B reserve counts `token_b_offset`
/// more than it holds, so that token B may start empty.
#[derive(Clone, Copy, Debug, PartialEq, Eq, Structural)]
pub struct OffsetCurve {
    /// Virtual amount of token B added to its reserve.
    pub token_b_offset: u64,
}

/// The reserves as the offset curve counts them, source first.
pub open spec fn offset_reserves(
    token_b_offset: u64,
    swap_source_amount: u128,
    swap_destination_amount: u128,
    trade_direction: TradeDirection,
) -> Option<(u128, u128)> {
    match trade_direction {
        TradeDirection::AtoB => if swap_destination_amount + token_b_offset > u128::MAX {
            None
        } else {
            Some((swap_source_amount, (swap_destination_amount + token_b_offset) as u128))
        },
        TradeDirection::BtoA => if swap_source_amount + token_b_offset > u128::MAX {
            None
        } else {
            Some(((swap_source_amount + token_b_offset) as u128, swap_destination_amount))
        },
    }
}

impl OffsetCurve {
    /// A constant-product swap on the offset reserves.
    pub open spec fn spec_swap(
        self,
        source_amount: u128,
        swap_source_amount: u128,
        swap_destination_amount: u128,
        trade_direction: TradeDirection,
    ) -> Option<SwapWithoutFeesResult> {
        match offset_reserves(
            self.token_b_offset,
            swap_source_amount,
            swap_destination_amount,
            trade_direction,
        ) {
            None => None,
            Some((s, d)) => swap_of(source_amount, s, d),
        }
    }

    /// The token B reserve with the offset added, if it fits.
    pub open spec fn offset_b(self, swap_token_b_amount: u128) -> Option<u128> {
        if swap_token_b_amount + self.token_b_offset > u128::MAX {
            None
        } else {
            Some((swap_token_b_amount + self.token_b_offset) as u128)
        }
    }

    /// Swaps as the constant-product curve does, with the offset added to
    /// the token B reserve.
    pub fn swap_without_fees(
        &self,
        source_amount: u128,
        swap_source_amount: u128,
        swap_destination_amount: u128,
        trade_direction: TradeDirection,
    ) -> (r: Option<SwapWithoutFeesResult>)
        ensures
            r == self.spec_swap(
                source_amount,
                swap_source_amount,
                swap_destination_amount,
                trade_direction,
            ),
    {
        let token_b_offset = self.token_b_offset as u128;
        let swap_source_amount = match trade_direction {
            TradeDirection::AtoB => swap_source_amount,
            TradeDirection::BtoA => swap_source_amount.checked_add(token_b_offset)?,
        };
        let swap_destination_amount = match trade_direction {
            TradeDirection::AtoB => swap_destination_amount.checked_add(token_b_offset)?,
            TradeDirection::BtoA => swap_destination_amount,
        };
        swap(source_amount, swap_source_amount, swap_destination_amount)
    }

    /// Converts pool tokens by the simple ratio of the real reserves; the
    /// offset is never paid out.
    pub fn pool_tokens_to_trading_tokens(
        &self,
        pool_tokens: u128,
        pool_token_supply: u128,
        swap_token_a_amount: u128,
        swap_token_b_amount: u128,
        round_direction: RoundDirection,
    ) -> (r: Option<TradingTokenResult>)
        ensures
            r == trading_tokens_of(
                pool_tokens,
                pool_token_supply,
                swap_token_a_amount,
                swap_token_b_amount,
                round_direction,
            ),
    {
        pool_tokens_to_trading_tokens(
            pool_tokens,
            pool_token_supply,
            swap_token_a_amount,
            swap_token_b_amount,
            round_direction,
        )
    }

    /// Pool tokens for a deposit of one token kind, on the offset reserves.
    pub fn deposit_single_token_type(
        &self,
        source_amount: u128,
        swap_token_a_amount: u128,
        swap_token_b_amount: u128,
        pool_supply: u128,
        trade_direction: TradeDirection,
    ) -> (r: Option<u128>)
        ensures
            r == (match self.offset_b(swap_token_b_amount) {
                None => None,
                Some(b) => deposit_single_of(
                    source_amount,
                    swap_token_a_amount,
                    b,
                    pool_supply,
                    trade_direction,
                    RoundDirection::Floor,
                ),
            }),
    {
        let token_b_offset = self.token_b_offset as u128;
        deposit_single_token_type(
            source_amount,
            swap_token_a_amount,
            swap_token_b_amount.checked_add(token_b_offset)?,
            pool_supply,
            trade_direction,
            RoundDirection::Floor,
        )
    }

    /// Pool tokens for a withdrawal of one token kind, on the offset reserves.
    pub fn withdraw_single_token_type_exact_out(
        &self,
        source_amount: u128,
        swap_token_a_amount: u128,
        swap_token_b_amount: u128,
        pool_supply: u128,
        trade_direction: TradeDirection,
        round_direction: RoundDirection,
    ) -> (r: Option<u128>)
        ensures
            r == (match self.offset_b(swap_token_b_amount) {
                None => None,
                Some(b) => withdraw_single_of(
                    source_amount,
                    swap_token_a_amount,
                    b,
                    pool_supply,
                    trade_direction,
                    round_direction,
                ),
            }),
    {
        let token_b_offset = self.token_b_offset as u128;
        withdraw_single_token_type_exact_out(
            source_amount,
            swap_token_a_amount,
            swap_token_b_amount.checked_add(token_b_offset)?,
            pool_supply,
            trade_direction,
            round_direction,
        )
    }

    /// The square root of the product of the offset reserves.
    pub fn normalized_value(&self, swap_token_a_amount: u128, swap_token_b_amount: u128) -> (r:
        Option<FixedPointNumber>)
        ensures
            opt_val(r) == (match self.offset_b(swap_token_b_amount) {
                None => None,
                Some(b) => normalized_value_of(swap_token_a_amount, b),
            }),
    {
        let token_b_offset = self.token_b_offset as u128;
        normalized_value(swap_token_a_amount, swap_token_b_amount.checked_add(token_b_offset)?)
    }

    /// The curve's parameter needs no check.
    pub fn validate(&self) -> (r: Result<(), SwapError>)
        ensures
            r == Ok::<(), SwapError>(()),
    {
        Ok(())
    }
}

} // verus!
