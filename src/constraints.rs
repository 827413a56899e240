//! Fee and curve constraints that a deployment may impose on new pools.

use crate::curve::base::{CurveType, SwapCurve};
use crate::curve::fees::Fees;
use crate::error::SwapError;
use vstd::prelude::*;

verus! {

/// Constraints on the curve kinds and fees that new pools may use.
pub struct SwapConstraints<'a> {
    /// Owner of the program, who must own the pool fee account.
    pub owner_key: Option<&'a str>,
    /// Curve kinds that pools may use.
    pub valid_curve_types: &'a [CurveType],
    /// Least fees: numerators at least these, the same denominators, and
    /// exactly this host fee.
    pub fees: &'a Fees,
}

/// `fees` meets the least fees `required`.
pub open spec fn fees_meet(fees: Fees, required: Fees) -> bool {
    &&& fees.trade_fee_numerator >= required.trade_fee_numerator
    &&& fees.trade_fee_denominator == required.trade_fee_denominator
    &&& fees.owner_trade_fee_numerator >= required.owner_trade_fee_numerator
    &&& fees.owner_trade_fee_denominator == required.owner_trade_fee_denominator
    &&& fees.owner_withdraw_fee_numerator >= required.owner_withdraw_fee_numerator
    &&& fees.owner_withdraw_fee_denominator == required.owner_withdraw_fee_denominator
    &&& fees.host_fee_numerator == required.host_fee_numerator
    &&& fees.host_fee_denominator == required.host_fee_denominator
}

impl<'a> SwapConstraints<'a> {
    /// The curve's kind is among the valid ones.
    pub open spec fn allows_curve(&self, swap_curve: SwapCurve) -> bool {
        exists|j: int|
            0 <= j < self.valid_curve_types@.len() && self.valid_curve_types@[j]
                == swap_curve.calculator.spec_curve_type()
    }

    /// Checks that the provided curve is of a valid kind.
    pub fn validate_curve(&self, swap_curve: &SwapCurve) -> (r: Result<(), SwapError>)
        ensures
            r == (if self.allows_curve(*swap_curve) {
                Ok(())
            } else {
                Err(SwapError::UnsupportedCurveType)
            }),
    {
        let curve_type = swap_curve.calculator.curve_type();
        let mut i: usize = 0;
        while i < self.valid_curve_types.len()
            invariant
                0 <= i <= self.valid_curve_types@.len(),
                curve_type == swap_curve.calculator.spec_curve_type(),
                forall|j: int| 0 <= j < i ==> self.valid_curve_types@[j] != curve_type,
            decreases self.valid_curve_types@.len() - i,
        {
            if self.valid_curve_types[i] == curve_type {
                return Ok(());
            }
            i += 1;
        }
        Err(SwapError::UnsupportedCurveType)
    }

    /// Checks that the provided fees meet the constraints.
    pub fn validate_fees(&self, fees: &Fees) -> (r: Result<(), SwapError>)
        ensures
            r == (if fees_meet(*fees, *self.fees) {
                Ok(())
            } else {
                Err(SwapError::InvalidFee)
            }),
    {
        if fees.trade_fee_numerator >= self.fees.trade_fee_numerator
            && fees.trade_fee_denominator == self.fees.trade_fee_denominator
            && fees.owner_trade_fee_numerator >= self.fees.owner_trade_fee_numerator
            && fees.owner_trade_fee_denominator == self.fees.owner_trade_fee_denominator
            && fees.owner_withdraw_fee_numerator >= self.fees.owner_withdraw_fee_numerator
            && fees.owner_withdraw_fee_denominator == self.fees.owner_withdraw_fee_denominator
            && fees.host_fee_numerator == self.fees.host_fee_numerator
            && fees.host_fee_denominator == self.fees.host_fee_denominator {
            Ok(())
        } else {
            Err(SwapError::InvalidFee)
        }
    }
}

} // verus!
