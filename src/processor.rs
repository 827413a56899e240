//! The pool operations: each checks its preconditions and limits and
//! computes the amounts that the caller then transfers, mints or burns.

use crate::constraints::SwapConstraints;
use crate::curve::base::{
    deposit_with_fees_of, swap_with_fees_of, withdraw_with_fees_of, SwapCurve, SwapResult,
};
use crate::curve::calculator::{RoundDirection, TradeDirection, INITIAL_SWAP_POOL_AMOUNT};
use crate::curve::fees::Fees;
use crate::error::SwapError;
use vstd::prelude::*;

verus! {

/// A snapshot of a pool, as the caller read it from its ledger.
#[derive(Clone, Copy, Debug, PartialEq, Eq, Structural)]
pub struct PoolState {
    /// Whether the pool has been initialized.
    pub is_initialized: bool,
    /// Reserve of token A.
    pub token_a_amount: u64,
    /// Reserve of token B.
    pub token_b_amount: u64,
    /// Outstanding pool tokens.
    pub pool_supply: u64,
    /// Fees of the pool.
    pub fees: Fees,
    /// Curve of the pool.
    pub swap_curve: SwapCurve,
}

/// What a swap moves.
#[derive(Clone, Copy, Debug, PartialEq, Eq, Structural)]
pub struct SwapOutcome {
    /// Source token to take from the trader.
    pub amount_in: u64,
    /// Destination token to pay the trader.
    pub amount_out: u64,
    /// Pool tokens to mint to the pool fee account.
    pub owner_pool_tokens: u64,
    /// Pool tokens to mint to the host fee account.
    pub host_pool_tokens: u64,
    /// The full result of the swap, new reserves included.
    pub result: SwapResult,
}

/// Pool tokens minted to the owner for an owner fee, and the host's share
/// of them, before conversion to 64 bits.
pub open spec fn owner_fee_tokens_of(
    state: PoolState,
    result: SwapResult,
    trade_direction: TradeDirection,
    with_host_fee: bool,
) -> Result<(u128, u128), SwapError> {
    if result.owner_fee == 0 {
        Ok((0, 0))
    } else {
        let (new_a, new_b) = match trade_direction {
            TradeDirection::AtoB => (
                result.new_swap_source_amount,
                result.new_swap_destination_amount,
            ),
            TradeDirection::BtoA => (
                result.new_swap_destination_amount,
                result.new_swap_source_amount,
            ),
        };
        match state.swap_curve.calculator.spec_withdraw_single_token_type_exact_out(
            result.owner_fee,
            new_a,
            new_b,
            state.pool_supply as u128,
            trade_direction,
            RoundDirection::Floor,
        ) {
            None => Err(SwapError::FeeCalculationFailure),
            Some(pool_tokens) => if !with_host_fee {
                Ok((pool_tokens, 0))
            } else {
                match state.fees.spec_host_fee(pool_tokens) {
                    None => Err(SwapError::FeeCalculationFailure),
                    Some(host_fee) => if host_fee > pool_tokens {
                        Err(SwapError::FeeCalculationFailure)
                    } else {
                        Ok(((pool_tokens - host_fee) as u128, host_fee))
                    },
                }
            },
        }
    }
}

/// The outcome of a swap of `amount_in`, or the error it fails with.
pub open spec fn swap_outcome_of(
    state: PoolState,
    amount_in: u64,
    minimum_amount_out: u64,
    trade_direction: TradeDirection,
    with_host_fee: bool,
) -> Result<SwapOutcome, SwapError> {
    let (source, destination) = match trade_direction {
        TradeDirection::AtoB => (state.token_a_amount, state.token_b_amount),
        TradeDirection::BtoA => (state.token_b_amount, state.token_a_amount),
    };
    if !state.is_initialized {
        Err(SwapError::NotInitialized)
    } else {
        match swap_with_fees_of(
            state.swap_curve.calculator,
            amount_in as u128,
            source as u128,
            destination as u128,
            trade_direction,
            state.fees,
        ) {
            None => Err(SwapError::ZeroTradingTokens),
            Some(result) => if result.source_amount_swapped == 0
                || result.destination_amount_swapped == 0 {
                Err(SwapError::ZeroTradingTokens)
            } else if result.source_amount_swapped > u64::MAX
                || result.destination_amount_swapped > u64::MAX {
                Err(SwapError::ConversionFailure)
            } else if result.destination_amount_swapped < minimum_amount_out {
                Err(SwapError::ExceededSlippage)
            } else {
                match owner_fee_tokens_of(state, result, trade_direction, with_host_fee) {
                    Err(e) => Err(e),
                    Ok((owner, host)) => if host > u64::MAX || owner > u64::MAX {
                        Err(SwapError::ConversionFailure)
                    } else {
                        Ok(
                            SwapOutcome {
                                amount_in: result.source_amount_swapped as u64,
                                amount_out: result.destination_amount_swapped as u64,
                                owner_pool_tokens: owner as u64,
                                host_pool_tokens: host as u64,
                                result,
                            },
                        )
                    },
                }
            },
        }
    }
}

/// The pool tokens minted and both amounts taken for a deposit of both
/// token kinds, or the error it fails with.
pub open spec fn deposit_all_of(
    state: PoolState,
    pool_token_amount: u64,
    maximum_token_a_amount: u64,
    maximum_token_b_amount: u64,
) -> Result<(u64, u64, u64), SwapError> {
    let calculator = state.swap_curve.calculator;
    let (pool_tokens, supply) = if state.pool_supply > 0 {
        (pool_token_amount as u128, state.pool_supply as u128)
    } else {
        (INITIAL_SWAP_POOL_AMOUNT, INITIAL_SWAP_POOL_AMOUNT)
    };
    if !state.is_initialized {
        Err(SwapError::NotInitialized)
    } else if !calculator.spec_allows_deposits() {
        Err(SwapError::UnsupportedCurveOperation)
    } else {
        match calculator.spec_pool_tokens_to_trading_tokens(
            pool_tokens,
            supply,
            state.token_a_amount as u128,
            state.token_b_amount as u128,
            RoundDirection::Ceiling,
        ) {
            None => Err(SwapError::ZeroTradingTokens),
            Some(res) => if res.token_a_amount > u64::MAX {
                Err(SwapError::ConversionFailure)
            } else if res.token_a_amount > maximum_token_a_amount {
                Err(SwapError::ExceededSlippage)
            } else if res.token_a_amount == 0 {
                Err(SwapError::ZeroTradingTokens)
            } else if res.token_b_amount > u64::MAX {
                Err(SwapError::ConversionFailure)
            } else if res.token_b_amount > maximum_token_b_amount {
                Err(SwapError::ExceededSlippage)
            } else if res.token_b_amount == 0 {
                Err(SwapError::ZeroTradingTokens)
            } else {
                Ok((pool_tokens as u64, res.token_a_amount as u64, res.token_b_amount as u64))
            },
        }
    }
}

/// The smaller of two amounts.
pub open spec fn min_u64(a: u64, b: u64) -> u64 {
    if a <= b {
        a
    } else {
        b
    }
}

/// Both amounts paid out, the withdraw fee and the pool tokens burnt for a
/// withdrawal of both token kinds, or the error it fails with.
pub open spec fn withdraw_all_of(
    state: PoolState,
    pool_token_amount: u64,
    minimum_token_a_amount: u64,
    minimum_token_b_amount: u64,
    fee_exempt: bool,
) -> Result<(u64, u64, u64, u64), SwapError> {
    let fee = if fee_exempt {
        Some(0u128)
    } else {
        state.fees.spec_owner_withdraw_fee(pool_token_amount as u128)
    };
    if !state.is_initialized {
        Err(SwapError::NotInitialized)
    } else {
        match fee {
            None => Err(SwapError::FeeCalculationFailure),
            Some(fee) => if fee > pool_token_amount {
                Err(SwapError::CalculationFailure)
            } else {
                let burnt = (pool_token_amount - fee) as u128;
                match state.swap_curve.calculator.spec_pool_tokens_to_trading_tokens(
                    burnt,
                    state.pool_supply as u128,
                    state.token_a_amount as u128,
                    state.token_b_amount as u128,
                    RoundDirection::Floor,
                ) {
                    None => Err(SwapError::ZeroTradingTokens),
                    Some(res) => {
                        let a = min_u64(state.token_a_amount, res.token_a_amount as u64);
                        let b = min_u64(state.token_b_amount, res.token_b_amount as u64);
                        if res.token_a_amount > u64::MAX {
                            Err(SwapError::ConversionFailure)
                        } else if a < minimum_token_a_amount {
                            Err(SwapError::ExceededSlippage)
                        } else if a == 0 && state.token_a_amount != 0 {
                            Err(SwapError::ZeroTradingTokens)
                        } else if res.token_b_amount > u64::MAX {
                            Err(SwapError::ConversionFailure)
                        } else if b < minimum_token_b_amount {
                            Err(SwapError::ExceededSlippage)
                        } else if b == 0 && state.token_b_amount != 0 {
                            Err(SwapError::ZeroTradingTokens)
                        } else {
                            Ok((a, b, fee as u64, burnt as u64))
                        }
                    },
                }
            },
        }
    }
}

/// Pool tokens minted for a deposit of one token kind, or the error.
pub open spec fn deposit_single_of_state(
    state: PoolState,
    source_token_amount: u64,
    minimum_pool_token_amount: u64,
    trade_direction: TradeDirection,
) -> Result<u64, SwapError> {
    let calculator = state.swap_curve.calculator;
    let pool_tokens = if state.pool_supply > 0 {
        deposit_with_fees_of(
            calculator,
            source_token_amount as u128,
            state.token_a_amount as u128,
            state.token_b_amount as u128,
            state.pool_supply as u128,
            trade_direction,
            state.fees,
        )
    } else {
        Some(INITIAL_SWAP_POOL_AMOUNT)
    };
    if !state.is_initialized {
        Err(SwapError::NotInitialized)
    } else if !calculator.spec_allows_deposits() {
        Err(SwapError::UnsupportedCurveOperation)
    } else {
        match pool_tokens {
            None => Err(SwapError::ZeroTradingTokens),
            Some(p) => if p > u64::MAX {
                Err(SwapError::ConversionFailure)
            } else if p < minimum_pool_token_amount {
                Err(SwapError::ExceededSlippage)
            } else if p == 0 {
                Err(SwapError::ZeroTradingTokens)
            } else {
                Ok(p as u64)
            },
        }
    }
}

/// Pool tokens burnt and the withdraw fee for a withdrawal of one token
/// kind, or the error.
pub open spec fn withdraw_single_of_state(
    state: PoolState,
    destination_token_amount: u64,
    maximum_pool_token_amount: u64,
    trade_direction: TradeDirection,
    fee_exempt: bool,
) -> Result<(u64, u64), SwapError> {
    if !state.is_initialized {
        Err(SwapError::NotInitialized)
    } else {
        match withdraw_with_fees_of(
            state.swap_curve.calculator,
            destination_token_amount as u128,
            state.token_a_amount as u128,
            state.token_b_amount as u128,
            state.pool_supply as u128,
            trade_direction,
            state.fees,
        ) {
            None => Err(SwapError::ZeroTradingTokens),
            Some(burnt) => {
                let fee = if fee_exempt {
                    Some(0u128)
                } else {
                    state.fees.spec_owner_withdraw_fee(burnt)
                };
                match fee {
                    None => Err(SwapError::FeeCalculationFailure),
                    Some(fee) => if burnt + fee > u128::MAX {
                        Err(SwapError::CalculationFailure)
                    } else if burnt + fee > u64::MAX {
                        Err(SwapError::ConversionFailure)
                    } else if burnt + fee > maximum_pool_token_amount {
                        Err(SwapError::ExceededSlippage)
                    } else if burnt + fee == 0 {
                        Err(SwapError::ZeroTradingTokens)
                    } else {
                        Ok((burnt as u64, fee as u64))
                    },
                }
            },
        }
    }
}

/// The pool that initialization creates, or the error.
pub open spec fn initialize_of(
    fees: Fees,
    swap_curve: SwapCurve,
    token_a_amount: u64,
    token_b_amount: u64,
    already_initialized: bool,
    curve_allowed: bool,
    fees_allowed: bool,
) -> Result<PoolState, SwapError> {
    if already_initialized {
        Err(SwapError::AlreadyInUse)
    } else if swap_curve.calculator.spec_validate_supply(token_a_amount, token_b_amount) is Err {
        Err(SwapError::EmptySupply)
    } else if !curve_allowed {
        Err(SwapError::UnsupportedCurveType)
    } else if !fees_allowed {
        Err(SwapError::InvalidFee)
    } else if !fees.is_valid() {
        Err(SwapError::InvalidFee)
    } else if swap_curve.calculator.spec_validate() is Err {
        Err(SwapError::InvalidCurve)
    } else {
        Ok(
            PoolState {
                is_initialized: true,
                token_a_amount,
                token_b_amount,
                pool_supply: INITIAL_SWAP_POOL_AMOUNT as u64,
                fees,
                swap_curve,
            },
        )
    }
}

fn to_u64(val: u128) -> (r: Result<u64, SwapError>)
    ensures
        r == (if val <= u64::MAX {
            Ok(val as u64)
        } else {
            Err(SwapError::ConversionFailure)
        }),
{
    if val <= u64::MAX as u128 {
        Ok(val as u64)
    } else {
        Err(SwapError::ConversionFailure)
    }
}

/// Runs the pool operations.
pub struct Processor {}

impl Processor {
    /// Initializes a pool: checks the starting reserves, the constraints if
    /// any, the fees and the curve, and mints the curve's initial supply.
    pub fn process_initialize(
        fees: Fees,
        swap_curve: SwapCurve,
        token_a_amount: u64,
        token_b_amount: u64,
        already_initialized: bool,
        swap_constraints: &Option<SwapConstraints>,
    ) -> (r: Result<PoolState, SwapError>)
        ensures
            r == initialize_of(
                fees,
                swap_curve,
                token_a_amount,
                token_b_amount,
                already_initialized,
                match swap_constraints {
                    Some(c) => c.allows_curve(swap_curve),
                    None => true,
                },
                match swap_constraints {
                    Some(c) => crate::constraints::fees_meet(fees, *c.fees),
                    None => true,
                },
            ),
    {
        if already_initialized {
            return Err(SwapError::AlreadyInUse);
        }
        swap_curve.calculator.validate_supply(token_a_amount, token_b_amount)?;
        if let Some(swap_constraints) = swap_constraints {
            swap_constraints.validate_curve(&swap_curve)?;
            swap_constraints.validate_fees(&fees)?;
        }
        fees.validate()?;
        swap_curve.calculator.validate()?;
        let initial_amount = to_u64(swap_curve.calculator.new_pool_supply())?;
        Ok(
            PoolState {
                is_initialized: true,
                token_a_amount,
                token_b_amount,
                pool_supply: initial_amount,
                fees,
                swap_curve,
            },
        )
    }

    /// Swaps `amount_in` of the source token; fails when the trader would
    /// receive less than `minimum_amount_out`. The owner fee is minted to the
    /// pool fee account as pool tokens, less the host's share when a host
    /// fee account is present.
    pub fn process_swap(
        state: &PoolState,
        amount_in: u64,
        minimum_amount_out: u64,
        trade_direction: TradeDirection,
        with_host_fee: bool,
    ) -> (r: Result<SwapOutcome, SwapError>)
        ensures
            r == swap_outcome_of(
                *state,
                amount_in,
                minimum_amount_out,
                trade_direction,
                with_host_fee,
            ),
    {
        if !state.is_initialized {
            return Err(SwapError::NotInitialized);
        }
        let (source, destination) = match trade_direction {
            TradeDirection::AtoB => (state.token_a_amount, state.token_b_amount),
            TradeDirection::BtoA => (state.token_b_amount, state.token_a_amount),
        };
        let result = match state.swap_curve.swap(
            amount_in as u128,
            source as u128,
            destination as u128,
            trade_direction,
            &state.fees,
        ) {
            Some(result) => result,
            None => return Err(SwapError::ZeroTradingTokens),
        };
        if result.source_amount_swapped == 0 || result.destination_amount_swapped == 0 {
            return Err(SwapError::ZeroTradingTokens);
        }
        let amount_in = to_u64(result.source_amount_swapped)?;
        let amount_out = to_u64(result.destination_amount_swapped)?;
        if amount_out < minimum_amount_out {
            return Err(SwapError::ExceededSlippage);
        }
        let (owner_pool_tokens, host_pool_tokens) = if result.owner_fee > 0 {
            let (swap_token_a_amount, swap_token_b_amount) = match trade_direction {
                TradeDirection::AtoB => (
                    result.new_swap_source_amount,
                    result.new_swap_destination_amount,
                ),
                TradeDirection::BtoA => (
                    result.new_swap_destination_amount,
                    result.new_swap_source_amount,
                ),
            };
            let mut pool_token_amount =
                match state.swap_curve.calculator.withdraw_single_token_type_exact_out(
                result.owner_fee,
                swap_token_a_amount,
                swap_token_b_amount,
                state.pool_supply as u128,
                trade_direction,
                RoundDirection::Floor,
            ) {
                Some(p) => p,
                None => return Err(SwapError::FeeCalculationFailure),
            };
            let mut host_fee: u128 = 0;
            if with_host_fee {
                host_fee = match state.fees.host_fee(pool_token_amount) {
                    Some(h) => h,
                    None => return Err(SwapError::FeeCalculationFailure),
                };
                pool_token_amount = match pool_token_amount.checked_sub(host_fee) {
                    Some(p) => p,
                    None => return Err(SwapError::FeeCalculationFailure),
                };
            }
            let host_fee = to_u64(host_fee)?;
            (to_u64(pool_token_amount)?, host_fee)
        } else {
            (0, 0)
        };
        Ok(SwapOutcome { amount_in, amount_out, owner_pool_tokens, host_pool_tokens, result })
    }

    /// Deposits both token kinds for `pool_token_amount` pool tokens (the
    /// curve's initial supply when the pool has none), rounding the amounts
    /// taken up; fails when either exceeds its maximum or is zero.
    /// Returns the pool tokens minted and the amounts of A and B taken.
    pub fn process_deposit_all_token_types(
        state: &PoolState,
        pool_token_amount: u64,
        maximum_token_a_amount: u64,
        maximum_token_b_amount: u64,
    ) -> (r: Result<(u64, u64, u64), SwapError>)
        ensures
            r == deposit_all_of(
                *state,
                pool_token_amount,
                maximum_token_a_amount,
                maximum_token_b_amount,
            ),
    {
        if !state.is_initialized {
            return Err(SwapError::NotInitialized);
        }
        let calculator = &state.swap_curve.calculator;
        if !calculator.allows_deposits() {
            return Err(SwapError::UnsupportedCurveOperation);
        }
        let current_pool_mint_supply = state.pool_supply as u128;
        let (pool_token_amount, pool_mint_supply) = if current_pool_mint_supply > 0 {
            (pool_token_amount as u128, current_pool_mint_supply)
        } else {
            (calculator.new_pool_supply(), calculator.new_pool_supply())
        };
        let results = match calculator.pool_tokens_to_trading_tokens(
            pool_token_amount,
            pool_mint_supply,
            state.token_a_amount as u128,
            state.token_b_amount as u128,
            RoundDirection::Ceiling,
        ) {
            Some(res) => res,
            None => return Err(SwapError::ZeroTradingTokens),
        };
        let token_a_amount = to_u64(results.token_a_amount)?;
        if token_a_amount > maximum_token_a_amount {
            return Err(SwapError::ExceededSlippage);
        }
        if token_a_amount == 0 {
            return Err(SwapError::ZeroTradingTokens);
        }
        let token_b_amount = to_u64(results.token_b_amount)?;
        if token_b_amount > maximum_token_b_amount {
            return Err(SwapError::ExceededSlippage);
        }
        if token_b_amount == 0 {
            return Err(SwapError::ZeroTradingTokens);
        }
        let pool_token_amount = to_u64(pool_token_amount)?;
        Ok((pool_token_amount, token_a_amount, token_b_amount))
    }

    /// Withdraws both token kinds for `pool_token_amount` pool tokens, less
    /// the owner withdraw fee unless `fee_exempt`, rounding the amounts paid
    /// down and never past the reserves. Returns the amounts of A and B
    /// paid, the withdraw fee, and the pool tokens burnt.
    pub fn process_withdraw_all_token_types(
        state: &PoolState,
        pool_token_amount: u64,
        minimum_token_a_amount: u64,
        minimum_token_b_amount: u64,
        fee_exempt: bool,
    ) -> (r: Result<(u64, u64, u64, u64), SwapError>)
        ensures
            r == withdraw_all_of(
                *state,
                pool_token_amount,
                minimum_token_a_amount,
                minimum_token_b_amount,
                fee_exempt,
            ),
    {
        if !state.is_initialized {
            return Err(SwapError::NotInitialized);
        }
        let withdraw_fee = if fee_exempt {
            0
        } else {
            match state.fees.owner_withdraw_fee(pool_token_amount as u128) {
                Some(f) => f,
                None => return Err(SwapError::FeeCalculationFailure),
            }
        };
        let pool_token_amount = match (pool_token_amount as u128).checked_sub(withdraw_fee) {
            Some(p) => p,
            None => return Err(SwapError::CalculationFailure),
        };
        let results = match state.swap_curve.calculator.pool_tokens_to_trading_tokens(
            pool_token_amount,
            state.pool_supply as u128,
            state.token_a_amount as u128,
            state.token_b_amount as u128,
            RoundDirection::Floor,
        ) {
            Some(res) => res,
            None => return Err(SwapError::ZeroTradingTokens),
        };
        let token_a_amount = to_u64(results.token_a_amount)?;
        let token_a_amount = if state.token_a_amount <= token_a_amount {
            state.token_a_amount
        } else {
            token_a_amount
        };
        if token_a_amount < minimum_token_a_amount {
            return Err(SwapError::ExceededSlippage);
        }
        if token_a_amount == 0 && state.token_a_amount != 0 {
            return Err(SwapError::ZeroTradingTokens);
        }
        let token_b_amount = to_u64(results.token_b_amount)?;
        let token_b_amount = if state.token_b_amount <= token_b_amount {
            state.token_b_amount
        } else {
            token_b_amount
        };
        if token_b_amount < minimum_token_b_amount {
            return Err(SwapError::ExceededSlippage);
        }
        if token_b_amount == 0 && state.token_b_amount != 0 {
            return Err(SwapError::ZeroTradingTokens);
        }
        Ok((token_a_amount, token_b_amount, withdraw_fee as u64, pool_token_amount as u64))
    }

    /// Deposits `source_token_amount` of one token kind; fails when fewer
    /// than `minimum_pool_token_amount` pool tokens would be minted.
    pub fn process_deposit_single_token_type_exact_amount_in(
        state: &PoolState,
        source_token_amount: u64,
        minimum_pool_token_amount: u64,
        trade_direction: TradeDirection,
    ) -> (r: Result<u64, SwapError>)
        ensures
            r == deposit_single_of_state(
                *state,
                source_token_amount,
                minimum_pool_token_amount,
                trade_direction,
            ),
    {
        if !state.is_initialized {
            return Err(SwapError::NotInitialized);
        }
        let calculator = &state.swap_curve.calculator;
        if !calculator.allows_deposits() {
            return Err(SwapError::UnsupportedCurveOperation);
        }
        let pool_mint_supply = state.pool_supply as u128;
        let pool_token_amount = if pool_mint_supply > 0 {
            match state.swap_curve.deposit_single_token_type(
                source_token_amount as u128,
                state.token_a_amount as u128,
                state.token_b_amount as u128,
                pool_mint_supply,
                trade_direction,
                &state.fees,
            ) {
                Some(p) => p,
                None => return Err(SwapError::ZeroTradingTokens),
            }
        } else {
            calculator.new_pool_supply()
        };
        let pool_token_amount = to_u64(pool_token_amount)?;
        if pool_token_amount < minimum_pool_token_amount {
            return Err(SwapError::ExceededSlippage);
        }
        if pool_token_amount == 0 {
            return Err(SwapError::ZeroTradingTokens);
        }
        Ok(pool_token_amount)
    }

    /// Withdraws exactly `destination_token_amount` of one token kind;
    /// fails when the pool tokens burnt plus the owner withdraw fee (waived
    /// when `fee_exempt`) exceed `maximum_pool_token_amount`. Returns the
    /// pool tokens burnt and the fee.
    pub fn process_withdraw_single_token_type_exact_amount_out(
        state: &PoolState,
        destination_token_amount: u64,
        maximum_pool_token_amount: u64,
        trade_direction: TradeDirection,
        fee_exempt: bool,
    ) -> (r: Result<(u64, u64), SwapError>)
        ensures
            r == withdraw_single_of_state(
                *state,
                destination_token_amount,
                maximum_pool_token_amount,
                trade_direction,
                fee_exempt,
            ),
    {
        if !state.is_initialized {
            return Err(SwapError::NotInitialized);
        }
        let burn_pool_token_amount = match state.swap_curve.withdraw_single_token_type_exact_out(
            destination_token_amount as u128,
            state.token_a_amount as u128,
            state.token_b_amount as u128,
            state.pool_supply as u128,
            trade_direction,
            &state.fees,
        ) {
            Some(p) => p,
            None => return Err(SwapError::ZeroTradingTokens),
        };
        let withdraw_fee = if fee_exempt {
            0
        } else {
            match state.fees.owner_withdraw_fee(burn_pool_token_amount) {
                Some(f) => f,
                None => return Err(SwapError::FeeCalculationFailure),
            }
        };
        let pool_token_amount = match burn_pool_token_amount.checked_add(withdraw_fee) {
            Some(p) => p,
            None => return Err(SwapError::CalculationFailure),
        };
        if to_u64(pool_token_amount)? > maximum_pool_token_amount {
            return Err(SwapError::ExceededSlippage);
        }
        if pool_token_amount == 0 {
            return Err(SwapError::ZeroTradingTokens);
        }
        Ok((burn_pool_token_amount as u64, withdraw_fee as u64))
    }
}

} // verus!
