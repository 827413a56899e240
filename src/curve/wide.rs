//! 256-bit intermediate values, computed by spl-math's `U256`.

use spl_math::checked_ceil_div::CheckedCeilDiv;
use spl_math::uint::U256;
use vstd::prelude::*;

verus! {

/// 2^64, the weight of the second limb.
pub open spec fn limb1() -> int {
    0x1_0000_0000_0000_0000int
}

/// 2^128, the weight of the third limb.
pub open spec fn limb2() -> int {
    0x1_0000_0000_0000_0000_0000_0000_0000_0000int
}

/// 2^192, the weight of the fourth limb.
pub open spec fn limb3() -> int {
    0x1_0000_0000_0000_0000_0000_0000_0000_0000_0000_0000_0000_0000int
}

/// The largest 256-bit value.
pub open spec fn u256_max() -> int {
    0xffff_ffff_ffff_ffff_ffff_ffff_ffff_ffff_ffff_ffff_ffff_ffff_ffff_ffff_ffff_ffffint
}

/// An unsigned 256-bit integer as four 64-bit limbs, least significant first.
#[derive(Clone, Copy, Debug)]
pub struct Uint256 {
    /// Bits 0 to 63.
    pub w0: u64,
    /// Bits 64 to 127.
    pub w1: u64,
    /// Bits 128 to 191.
    pub w2: u64,
    /// Bits 192 to 255.
    pub w3: u64,
}

/// The value of an optional 256-bit integer.
pub open spec fn opt_value(x: Option<Uint256>) -> Option<int> {
    match x {
        Some(v) => Some(v.value()),
        None => None,
    }
}

/// `Some(v)` when `v` fits in 256 bits, else `None`.
pub open spec fn fit256(v: int) -> Option<int> {
    if 0 <= v <= u256_max() {
        Some(v)
    } else {
        None
    }
}

/// Ceiling division that also shrinks the divisor to the least one giving
/// the same quotient; `None` on a zero divisor or a zero quotient.
pub open spec fn ceil_div_pair(dividend: int, divisor: int) -> Option<(int, int)> {
    if divisor <= 0 || dividend / divisor == 0 {
        None
    } else if dividend % divisor == 0 {
        Some((dividend / divisor, divisor))
    } else {
        let quotient = dividend / divisor + 1;
        let least = if dividend % quotient > 0 {
            dividend / quotient + 1
        } else {
            dividend / quotient
        };
        Some((quotient, least))
    }
}

impl Uint256 {
    /// The number the limbs stand for.
    pub open spec fn value(self) -> int {
        self.w0 + self.w1 * limb1() + self.w2 * limb2() + self.w3 * limb3()
    }

    /// The 256-bit value of a 128-bit integer.
    pub fn from_u128(x: u128) -> (r: Uint256)
        ensures
            r.value() == x,
    {
        let lo = (x % 0x1_0000_0000_0000_0000u128) as u64;
        let hi = (x / 0x1_0000_0000_0000_0000u128) as u64;
        Uint256 { w0: lo, w1: hi, w2: 0, w3: 0 }
    }

    /// The value as a 128-bit integer, or `None` when it does not fit.
    pub fn to_u128(&self) -> (r: Option<u128>)
        ensures
            r == (if self.value() <= u128::MAX {
                Some(self.value() as u128)
            } else {
                None
            }),
    {
        if self.w2 == 0 && self.w3 == 0 {
            Some(self.w1 as u128 * 0x1_0000_0000_0000_0000u128 + self.w0 as u128)
        } else {
            None
        }
    }

    /// Whether this value is at most `other`.
    pub fn le(&self, other: &Uint256) -> (r: bool)
        ensures
            r == (self.value() <= other.value()),
    {
        if self.w3 != other.w3 {
            self.w3 < other.w3
        } else if self.w2 != other.w2 {
            self.w2 < other.w2
        } else if self.w1 != other.w1 {
            self.w1 < other.w1
        } else {
            self.w0 <= other.w0
        }
    }
}

/// Relies on `U256::checked_add` (spl-math's `uint::U256`): the sum, or
/// `None` past 256 bits.
#[verifier::external_body]
pub(crate) fn checked_add(a: Uint256, b: Uint256) -> (r: Option<Uint256>)
    ensures
        opt_value(r) == fit256(a.value() + b.value()),
{
    match U256([a.w0, a.w1, a.w2, a.w3]).checked_add(U256([b.w0, b.w1, b.w2, b.w3])) {
        Some(U256([w0, w1, w2, w3])) => Some(Uint256 { w0, w1, w2, w3 }),
        None => None,
    }
}

/// Relies on `U256::checked_mul` (spl-math's `uint::U256`): the product, or
/// `None` past 256 bits.
#[verifier::external_body]
pub(crate) fn checked_mul(a: Uint256, b: Uint256) -> (r: Option<Uint256>)
    ensures
        opt_value(r) == fit256(a.value() * b.value()),
{
    match U256([a.w0, a.w1, a.w2, a.w3]).checked_mul(U256([b.w0, b.w1, b.w2, b.w3])) {
        Some(U256([w0, w1, w2, w3])) => Some(Uint256 { w0, w1, w2, w3 }),
        None => None,
    }
}

/// Relies on `U256::checked_div` (spl-math's `uint::U256`): the floored
/// quotient, or `None` for a zero divisor.
#[verifier::external_body]
pub(crate) fn checked_div(a: Uint256, b: Uint256) -> (r: Option<Uint256>)
    ensures
        opt_value(r) == (if b.value() == 0 {
            None
        } else {
            Some(a.value() / b.value())
        }),
{
    match U256([a.w0, a.w1, a.w2, a.w3]).checked_div(U256([b.w0, b.w1, b.w2, b.w3])) {
        Some(U256([w0, w1, w2, w3])) => Some(Uint256 { w0, w1, w2, w3 }),
        None => None,
    }
}

/// Relies on spl-math's `CheckedCeilDiv` for `U256`: the rounded-up
/// quotient with the least divisor that gives it, or `None` for a zero
/// divisor or a zero floored quotient.
#[verifier::external_body]
pub(crate) fn checked_ceil_div(a: Uint256, b: Uint256) -> (r: Option<(Uint256, Uint256)>)
    ensures
        match r {
            Some((q, d)) => ceil_div_pair(a.value(), b.value()) == Some((q.value(), d.value())),
            None => ceil_div_pair(a.value(), b.value()) is None,
        },
{
    match U256([a.w0, a.w1, a.w2, a.w3]).checked_ceil_div(U256([b.w0, b.w1, b.w2, b.w3])) {
        Some((U256([q0, q1, q2, q3]), U256([d0, d1, d2, d3]))) => Some(
            (Uint256 { w0: q0, w1: q1, w2: q2, w3: q3 }, Uint256 { w0: d0, w1: d1, w2: d2, w3: d3 }),
        ),
        None => None,
    }
}

/// Relies on spl-math's `CheckedCeilDiv` for `u128`: the rounded-up
/// quotient with the least divisor that gives it, or `None` for a zero
/// divisor or a zero floored quotient.
#[verifier::external_body]
pub(crate) fn checked_ceil_div_u128(a: u128, b: u128) -> (r: Option<(u128, u128)>)
    ensures
        match r {
            Some((q, d)) => ceil_div_pair(a as int, b as int) == Some((q as int, d as int)),
            None => ceil_div_pair(a as int, b as int) is None,
        },
{
    a.checked_ceil_div(b)
}

} // verus!
