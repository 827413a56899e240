//! Fixed-point numbers with twelve decimal places, computed by spl-math's
//! `PreciseNumber`.

use crate::curve::wide::{fit256, u256_max, Uint256};
use spl_math::precise_number::PreciseNumber;
use spl_math::uint::U256;
use vstd::prelude::*;

verus! {

/// The scale of a fixed-point number: the value that stands for one.
pub open spec fn one_scaled() -> int {
    1_000_000_000_000
}

/// Half of `one_scaled`, added before a division to round to nearest.
pub open spec fn half_scaled() -> int {
    500_000_000_000
}

/// A non-negative fixed-point number: `value` is the number times
/// `one_scaled()`.
#[derive(Clone, Copy, Debug)]
pub struct FixedPointNumber {
    pub value: Uint256,
}

impl FixedPointNumber {
    /// The number times `one_scaled()`.
    pub open spec fn val(self) -> int {
        self.value.value()
    }
}

/// The scaled value of an optional fixed-point number.
pub open spec fn opt_val(x: Option<FixedPointNumber>) -> Option<int> {
    match x {
        Some(v) => Some(v.val()),
        None => None,
    }
}

/// Division rounded to nearest; when `a` cannot be scaled up first, the
/// quotient is rounded and then scaled.
pub open spec fn precise_div(a: int, b: int) -> Option<int> {
    if b == 0 {
        None
    } else if a * one_scaled() <= u256_max() {
        if a * one_scaled() + half_scaled() > u256_max() {
            None
        } else {
            Some((a * one_scaled() + half_scaled()) / b)
        }
    } else if a + half_scaled() > u256_max() {
        None
    } else {
        fit256(((a + half_scaled()) / b) * one_scaled())
    }
}

/// Multiplication rounded to nearest; when the raw product does not fit,
/// the larger factor is scaled down first.
pub open spec fn precise_mul(a: int, b: int) -> Option<int> {
    if a * b <= u256_max() {
        if a * b + half_scaled() > u256_max() {
            None
        } else {
            Some((a * b + half_scaled()) / one_scaled())
        }
    } else if a >= b {
        fit256((a / one_scaled()) * b)
    } else {
        fit256((b / one_scaled()) * a)
    }
}

/// Subtraction, `None` below zero.
pub open spec fn precise_sub(a: int, b: int) -> Option<int> {
    if a >= b {
        Some(a - b)
    } else {
        None
    }
}

/// Rounding down to a whole number.
pub open spec fn precise_floor(a: int) -> int {
    (a / one_scaled()) * one_scaled()
}

/// Rounding up to a whole number.
pub open spec fn precise_ceiling(a: int) -> Option<int> {
    if a + one_scaled() - 1 > u256_max() {
        None
    } else {
        Some(((a + one_scaled() - 1) / one_scaled()) * one_scaled())
    }
}

/// The whole number nearest to a scaled value.
pub open spec fn precise_to_integer(a: int) -> int {
    (a + half_scaled()) / one_scaled()
}

/// What spl-math's `PreciseNumber::sqrt` returns for a scaled value: an
/// approximation by Newton's method.
pub uninterp spec fn sqrt_of(value: int) -> Option<int>;

impl FixedPointNumber {
    /// Relies on spl-math's `PreciseNumber::new`: the integer times the
    /// scale, which always fits in 256 bits.
    #[verifier::external_body]
    pub(crate) fn new(v: u128) -> (r: Option<FixedPointNumber>)
        ensures
            opt_val(r) == Some(v * one_scaled()),
    {
        match PreciseNumber::new(v) {
            Some(PreciseNumber { value: U256([w0, w1, w2, w3]) }) => Some(
                FixedPointNumber { value: Uint256 { w0, w1, w2, w3 } },
            ),
            None => None,
        }
    }

    /// Relies on spl-math's `PreciseNumber::checked_add`: the sum of the
    /// scaled values, or `None` past 256 bits.
    #[verifier::external_body]
    pub(crate) fn checked_add(&self, rhs: &FixedPointNumber) -> (r: Option<FixedPointNumber>)
        ensures
            opt_val(r) == fit256(self.val() + rhs.val()),
    {
        let a = PreciseNumber { value: U256([self.value.w0, self.value.w1, self.value.w2, self.value.w3]) };
        let b = PreciseNumber { value: U256([rhs.value.w0, rhs.value.w1, rhs.value.w2, rhs.value.w3]) };
        match a.checked_add(&b) {
            Some(PreciseNumber { value: U256([w0, w1, w2, w3]) }) => Some(
                FixedPointNumber { value: Uint256 { w0, w1, w2, w3 } },
            ),
            None => None,
        }
    }

    /// Relies on spl-math's `PreciseNumber::checked_sub`: the difference of
    /// the scaled values, or `None` below zero.
    #[verifier::external_body]
    pub(crate) fn checked_sub(&self, rhs: &FixedPointNumber) -> (r: Option<FixedPointNumber>)
        ensures
            opt_val(r) == precise_sub(self.val(), rhs.val()),
    {
        let a = PreciseNumber { value: U256([self.value.w0, self.value.w1, self.value.w2, self.value.w3]) };
        let b = PreciseNumber { value: U256([rhs.value.w0, rhs.value.w1, rhs.value.w2, rhs.value.w3]) };
        match a.checked_sub(&b) {
            Some(PreciseNumber { value: U256([w0, w1, w2, w3]) }) => Some(
                FixedPointNumber { value: Uint256 { w0, w1, w2, w3 } },
            ),
            None => None,
        }
    }

    /// Relies on spl-math's `PreciseNumber::checked_mul`: the product
    /// rounded to nearest, as `precise_mul` states its two branches.
    #[verifier::external_body]
    pub(crate) fn checked_mul(&self, rhs: &FixedPointNumber) -> (r: Option<FixedPointNumber>)
        ensures
            opt_val(r) == precise_mul(self.val(), rhs.val()),
    {
        let a = PreciseNumber { value: U256([self.value.w0, self.value.w1, self.value.w2, self.value.w3]) };
        let b = PreciseNumber { value: U256([rhs.value.w0, rhs.value.w1, rhs.value.w2, rhs.value.w3]) };
        match a.checked_mul(&b) {
            Some(PreciseNumber { value: U256([w0, w1, w2, w3]) }) => Some(
                FixedPointNumber { value: Uint256 { w0, w1, w2, w3 } },
            ),
            None => None,
        }
    }

    /// Relies on spl-math's `PreciseNumber::checked_div`: the quotient
    /// rounded to nearest, as `precise_div` states its two branches.
    #[verifier::external_body]
    pub(crate) fn checked_div(&self, rhs: &FixedPointNumber) -> (r: Option<FixedPointNumber>)
        ensures
            opt_val(r) == precise_div(self.val(), rhs.val()),
    {
        let a = PreciseNumber { value: U256([self.value.w0, self.value.w1, self.value.w2, self.value.w3]) };
        let b = PreciseNumber { value: U256([rhs.value.w0, rhs.value.w1, rhs.value.w2, rhs.value.w3]) };
        match a.checked_div(&b) {
            Some(PreciseNumber { value: U256([w0, w1, w2, w3]) }) => Some(
                FixedPointNumber { value: Uint256 { w0, w1, w2, w3 } },
            ),
            None => None,
        }
    }

    /// Relies on spl-math's `PreciseNumber::sqrt`: its result depends on the
    /// value alone and is named `sqrt_of`.
    #[verifier::external_body]
    pub(crate) fn sqrt(&self) -> (r: Option<FixedPointNumber>)
        ensures
            opt_val(r) == sqrt_of(self.val()),
    {
        let a = PreciseNumber { value: U256([self.value.w0, self.value.w1, self.value.w2, self.value.w3]) };
        match a.sqrt() {
            Some(PreciseNumber { value: U256([w0, w1, w2, w3]) }) => Some(
                FixedPointNumber { value: Uint256 { w0, w1, w2, w3 } },
            ),
            None => None,
        }
    }

    /// Relies on spl-math's `PreciseNumber::floor`: the scaled value rounded
    /// down to a whole number; it cannot fail.
    #[verifier::external_body]
    pub(crate) fn floor(&self) -> (r: Option<FixedPointNumber>)
        ensures
            opt_val(r) == Some(precise_floor(self.val())),
    {
        let a = PreciseNumber { value: U256([self.value.w0, self.value.w1, self.value.w2, self.value.w3]) };
        match a.floor() {
            Some(PreciseNumber { value: U256([w0, w1, w2, w3]) }) => Some(
                FixedPointNumber { value: Uint256 { w0, w1, w2, w3 } },
            ),
            None => None,
        }
    }

    /// Relies on spl-math's `PreciseNumber::ceiling`: the scaled value
    /// rounded up to a whole number, or `None` past 256 bits.
    #[verifier::external_body]
    pub(crate) fn ceiling(&self) -> (r: Option<FixedPointNumber>)
        ensures
            opt_val(r) == precise_ceiling(self.val()),
    {
        let a = PreciseNumber { value: U256([self.value.w0, self.value.w1, self.value.w2, self.value.w3]) };
        match a.ceiling() {
            Some(PreciseNumber { value: U256([w0, w1, w2, w3]) }) => Some(
                FixedPointNumber { value: Uint256 { w0, w1, w2, w3 } },
            ),
            None => None,
        }
    }

    /// Relies on spl-math's `PreciseNumber::to_imprecise`: the nearest whole
    /// number. It panics when that number does not fit in 128 bits, so that
    /// case is excluded.
    #[verifier::external_body]
    pub(crate) fn to_imprecise(&self) -> (r: Option<u128>)
        requires
            precise_to_integer(self.val()) <= u128::MAX,
        ensures
            r == Some(precise_to_integer(self.val()) as u128),
    {
        let a = PreciseNumber { value: U256([self.value.w0, self.value.w1, self.value.w2, self.value.w3]) };
        a.to_imprecise()
    }
}

impl FixedPointNumber {
    /// Whether this number is at least `rhs`.
    pub fn greater_than_or_equal(&self, rhs: &FixedPointNumber) -> (r: bool)
        ensures
            r == (self.val() >= rhs.val()),
    {
        rhs.value.le(&self.value)
    }

    /// Whether this number is below `rhs`.
    pub fn less_than(&self, rhs: &FixedPointNumber) -> (r: bool)
        ensures
            r == (self.val() < rhs.val()),
    {
        !rhs.value.le(&self.value)
    }

    /// The whole number nearest to this one, or `None` when it does not fit
    /// in 128 bits.
    pub fn to_u128(&self) -> (r: Option<u128>)
        ensures
            r == (if precise_to_integer(self.val()) <= u128::MAX {
                Some(precise_to_integer(self.val()) as u128)
            } else {
                None
            }),
    {
        let bound = Uint256 {
            w0: 18446743573709551615,
            w1: 18446744073709551615,
            w2: 999999999999,
            w3: 0,
        };
        if self.value.le(&bound) {
            self.to_imprecise()
        } else {
            None
        }
    }
}

} // verus!
