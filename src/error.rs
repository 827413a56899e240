//! Error kinds of the pool engine.

use vstd::prelude::*;

verus! {

/// Every way an operation of the engine can fail.
#[derive(Clone, Copy, Debug, PartialEq, Eq, Structural)]
pub enum SwapError {
    /// The pool is already initialized.
    AlreadyInUse,
    /// The pool has not been initialized.
    NotInitialized,
    /// A reserve that the curve needs at creation is empty.
    EmptySupply,
    /// A fee fraction is not below one, or differs from the required fees.
    InvalidFee,
    /// A curve parameter is invalid.
    InvalidCurve,
    /// The curve kind is not among the allowed ones.
    UnsupportedCurveType,
    /// The curve does not allow this operation.
    UnsupportedCurveOperation,
    /// A computed leg of the operation rounds to zero.
    ZeroTradingTokens,
    /// A caller-supplied minimum or maximum is violated.
    ExceededSlippage,
    /// A general arithmetic step failed.
    CalculationFailure,
    /// A fee computation failed.
    FeeCalculationFailure,
    /// An amount does not fit in 64 bits.
    ConversionFailure,
}

} // verus!
