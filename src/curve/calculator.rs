//! Shared types of the swap curves.

use vstd::prelude::*;

verus! {

/// Pool tokens minted to the creator of a new pool.
pub const INITIAL_SWAP_POOL_AMOUNT: u128 = 1_000_000_000;

/// Number of token kinds in a pool.
pub const TOKENS_IN_POOL: u128 = 2;

/// `None` for zero, `Some(x)` otherwise.
pub fn map_zero_to_none(x: u128) -> (r: Option<u128>)
    ensures
        r == (if x == 0 { None } else { Some(x) }),
{
    if x == 0 {
        None
    } else {
        Some(x)
    }
}

/// The direction of a trade.
#[derive(Clone, Copy, Debug, PartialEq, Eq, Structural)]
pub enum TradeDirection {
    /// Input token A, output token B.
    AtoB,
    /// Input token B, output token A.
    BtoA,
}

/// The direction to round a pool-token conversion in.
#[derive(Clone, Copy, Debug, PartialEq, Eq, Structural)]
pub enum RoundDirection {
    /// Round down: used when the pool pays out.
    Floor,
    /// Round up: used when the user pays in.
    Ceiling,
}

impl TradeDirection {
    /// The trade in the other direction.
    pub open spec fn spec_opposite(self) -> TradeDirection {
        match self {
            TradeDirection::AtoB => TradeDirection::BtoA,
            TradeDirection::BtoA => TradeDirection::AtoB,
        }
    }

    /// Gives the opposite direction: A to B becomes B to A, and back.
    pub fn opposite(&self) -> (r: TradeDirection)
        ensures
            r == self.spec_opposite(),
            r != *self,
    {
        match self {
            TradeDirection::AtoB => TradeDirection::BtoA,
            TradeDirection::BtoA => TradeDirection::AtoB,
        }
    }
}

/// Amounts moved by a swap before fees.
#[derive(Clone, Copy, Debug, PartialEq, Eq, Structural)]
pub struct SwapWithoutFeesResult {
    /// Amount of source token taken in.
    pub source_amount_swapped: u128,
    /// Amount of destination token paid out.
    pub destination_amount_swapped: u128,
}

/// Amounts of both tokens for a deposit or withdrawal of both sides.
#[derive(Clone, Copy, Debug, PartialEq, Eq, Structural)]
pub struct TradingTokenResult {
    /// Amount of token A.
    pub token_a_amount: u128,
    /// Amount of token B.
    pub token_b_amount: u128,
}

} // verus!
