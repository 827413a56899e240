//! Fee fractions and the fee computations of a pool.

use crate::error::SwapError;
use vstd::prelude::*;

verus! {

/// The four fee fractions of a pool.
#[derive(Clone, Copy, Debug, PartialEq, Eq, Structural)]
pub struct Fees {
    /// Trade fee numerator: kept in the pool, raising the value of pool tokens.
    pub trade_fee_numerator: u64,
    /// Trade fee denominator.
    pub trade_fee_denominator: u64,
    /// Owner trade fee numerator: kept in the pool, its worth minted to the owner.
    pub owner_trade_fee_numerator: u64,
    /// Owner trade fee denominator.
    pub owner_trade_fee_denominator: u64,
    /// Owner withdraw fee numerator: pool tokens sent to the owner on withdrawal.
    pub owner_withdraw_fee_numerator: u64,
    /// Owner withdraw fee denominator.
    pub owner_withdraw_fee_denominator: u64,
    /// Host fee numerator: the share of the owner fee that goes to a host.
    pub host_fee_numerator: u64,
    /// Host fee denominator.
    pub host_fee_denominator: u64,
}

/// The fee on `amount` at `numerator / denominator`: none when the numerator
/// or the amount is zero, otherwise the floored fraction but at least one.
pub open spec fn fee_of(amount: u128, numerator: u128, denominator: u128) -> Option<u128> {
    if numerator == 0 || amount == 0 {
        Some(0)
    } else if amount * numerator > u128::MAX || denominator == 0 {
        None
    } else if (amount * numerator) / (denominator as int) == 0 {
        Some(1)
    } else {
        Some(((amount * numerator) / (denominator as int)) as u128)
    }
}

/// Ceiling of `dividend / divisor`, computed as `(dividend + divisor - 1) / divisor`.
pub open spec fn ceil_div_of(dividend: u128, divisor: u128) -> Option<u128> {
    if divisor == 0 || dividend + divisor > u128::MAX {
        None
    } else {
        Some(((dividend + divisor - 1) / (divisor as int)) as u128)
    }
}

/// The smallest amount that leaves at least `post_fee_amount` once a fee of
/// `numerator / denominator` is taken off.
pub open spec fn pre_fee_of(post_fee_amount: u128, numerator: u128, denominator: u128) -> Option<
    u128,
> {
    if numerator == 0 || denominator == 0 {
        Some(post_fee_amount)
    } else if numerator == denominator || post_fee_amount == 0 {
        Some(0)
    } else if post_fee_amount * denominator > u128::MAX || numerator > denominator {
        None
    } else {
        ceil_div_of((post_fee_amount * denominator) as u128, (denominator - numerator) as u128)
    }
}

/// A fee fraction is valid when both parts are zero or it is below one.
pub open spec fn fraction_is_valid(numerator: u64, denominator: u64) -> bool {
    (numerator == 0 && denominator == 0) || numerator < denominator
}

/// Calculates a fee: zero when the numerator or the amount is zero, else
/// `amount * numerator / denominator` rounded down, with a minimum of one.
pub fn calculate_fee(token_amount: u128, fee_numerator: u128, fee_denominator: u128) -> (r: Option<
    u128,
>)
    ensures
        r == fee_of(token_amount, fee_numerator, fee_denominator),
{
    if fee_numerator == 0 || token_amount == 0 {
        Some(0)
    } else {
        let product = match token_amount.checked_mul(fee_numerator) {
            Some(p) => p,
            None => return None,
        };
        let fee = match product.checked_div(fee_denominator) {
            Some(f) => f,
            None => return None,
        };
        if fee == 0 {
            Some(1)
        } else {
            Some(fee)
        }
    }
}

fn ceil_div(dividend: u128, divisor: u128) -> (r: Option<u128>)
    ensures
        r == ceil_div_of(dividend, divisor),
{
    if divisor == 0 {
        return None;
    }
    match dividend.checked_add(divisor) {
        Some(sum) => Some((sum - 1) / divisor),
        None => None,
    }
}

fn pre_fee_amount(post_fee_amount: u128, fee_numerator: u128, fee_denominator: u128) -> (r: Option<
    u128,
>)
    ensures
        r == pre_fee_of(post_fee_amount, fee_numerator, fee_denominator),
{
    if fee_numerator == 0 || fee_denominator == 0 {
        Some(post_fee_amount)
    } else if fee_numerator == fee_denominator || post_fee_amount == 0 {
        Some(0)
    } else {
        let numerator = match post_fee_amount.checked_mul(fee_denominator) {
            Some(n) => n,
            None => return None,
        };
        let denominator = match fee_denominator.checked_sub(fee_numerator) {
            Some(d) => d,
            None => return None,
        };
        ceil_div(numerator, denominator)
    }
}

fn validate_fraction(numerator: u64, denominator: u64) -> (r: Result<(), SwapError>)
    ensures
        r == (if fraction_is_valid(numerator, denominator) {
            Ok(())
        } else {
            Err(SwapError::InvalidFee)
        }),
{
    if denominator == 0 && numerator == 0 {
        Ok(())
    } else if numerator >= denominator {
        Err(SwapError::InvalidFee)
    } else {
        Ok(())
    }
}

/// A pool's fees are rejected when any fraction has a nonzero denominator
/// and a numerator at least as large.
pub proof fn lemma_fraction_at_least_one_is_rejected(fees: Fees)
    requires
        (fees.trade_fee_denominator != 0 && fees.trade_fee_numerator >= fees.trade_fee_denominator)
            || (fees.owner_trade_fee_denominator != 0 && fees.owner_trade_fee_numerator
            >= fees.owner_trade_fee_denominator) || (fees.owner_withdraw_fee_denominator != 0
            && fees.owner_withdraw_fee_numerator >= fees.owner_withdraw_fee_denominator) || (
        fees.host_fee_denominator != 0 && fees.host_fee_numerator >= fees.host_fee_denominator),
    ensures
        !fees.is_valid(),
{
}

proof fn lemma_fee_steps(x: u128, y: u128, n: u128, d: u128)
    requires
        x <= y,
        n == 0 || n < d,
        fee_of(y, n, d) is Some,
    ensures
        fee_of(x, n, d) is Some,
        fee_of(x, n, d).unwrap() <= x,
        fee_of(y, n, d).unwrap() <= y,
        x - fee_of(x, n, d).unwrap() <= y - fee_of(y, n, d).unwrap(),
{
    if n != 0 && y != 0 {
        let fy = (y * n) / (d as int);
        vstd::arithmetic::div_mod::lemma_fundamental_div_mod(y * n, d as int);
        assert(0 <= fy <= y) by (nonlinear_arith)
            requires
                y * n == d * fy + (y * n) % (d as int),
                0 <= (y * n) % (d as int) < d,
                0 < n < d,
                y >= 1,
        ;
        if x != 0 {
            assert(x * n <= y * n) by (nonlinear_arith)
                requires
                    x <= y,
            ;
            let fx = (x * n) / (d as int);
            vstd::arithmetic::div_mod::lemma_fundamental_div_mod(x * n, d as int);
            assert(0 <= fx <= fy && fx <= x && fy - fx <= y - x) by (nonlinear_arith)
                requires
                    x * n == d * fx + (x * n) % (d as int),
                    0 <= (x * n) % (d as int) < d,
                    y * n == d * fy + (y * n) % (d as int),
                    0 <= (y * n) % (d as int) < d,
                    0 < n < d,
                    1 <= x <= y,
                    x * n <= y * n,
            ;
        }
    }
}

proof fn lemma_pre_fee_covers(post_fee_amount: u128, n: u128, d: u128)
    requires
        n == 0 || n < d,
        pre_fee_of(post_fee_amount, n, d) is Some,
        fee_of(pre_fee_of(post_fee_amount, n, d).unwrap(), n, d) is Some,
    ensures
        ({
            let g = pre_fee_of(post_fee_amount, n, d).unwrap();
            let f = fee_of(g, n, d).unwrap();
            f <= g && g - f >= post_fee_amount
        }),
{
    if n != 0 && post_fee_amount != 0 {
        let g = pre_fee_of(post_fee_amount, n, d).unwrap();
        let x = post_fee_amount * d + (d - n) - 1;
        let k = (d - n) as int;
        vstd::arithmetic::div_mod::lemma_fundamental_div_mod(x, k);
        assert(g * k >= post_fee_amount * d) by (nonlinear_arith)
            requires
                g == x / k,
                x == k * (x / k) + x % k,
                0 <= x % k < k,
                x == post_fee_amount * d + k - 1,
        ;
        assert(post_fee_amount * d == post_fee_amount * k + post_fee_amount * n)
            by (nonlinear_arith)
            requires
                k == d - n,
        ;
        assert(post_fee_amount * n >= 1) by (nonlinear_arith)
            requires
                n >= 1,
                post_fee_amount >= 1,
        ;
        if g <= post_fee_amount {
            assert(g * k <= post_fee_amount * k) by (nonlinear_arith)
                requires
                    g <= post_fee_amount,
                    k > 0,
            ;
        }
        let f = (g * n) / (d as int);
        vstd::arithmetic::div_mod::lemma_fundamental_div_mod(g * n, d as int);
        assert(g - f >= post_fee_amount) by (nonlinear_arith)
            requires
                g * k >= post_fee_amount * d,
                k == d - n,
                g * n == d * f + (g * n) % (d as int),
                0 <= (g * n) % (d as int),
                d > 0,
        ;
        assert(f >= 0) by (nonlinear_arith)
            requires
                g * n == d * f + (g * n) % (d as int),
                (g * n) % (d as int) < d,
                g * n >= 0,
                d > 0,
        ;
    }
}

/// With valid trade and owner fee fractions, the two fees inverted in turn
/// always leave the target: the inverse is found whenever the fees on it
/// can be computed.
pub proof fn lemma_pre_trading_fee_amount_found(fees: Fees, post_fee_amount: u128)
    requires
        fraction_is_valid(fees.trade_fee_numerator, fees.trade_fee_denominator),
        fraction_is_valid(fees.owner_trade_fee_numerator, fees.owner_trade_fee_denominator),
        fees.sequential_pre_fee_of(post_fee_amount) is Some,
        fees.net_after_fees(fees.sequential_pre_fee_of(post_fee_amount).unwrap()) is Some,
    ensures
        fees.spec_pre_trading_fee_amount(post_fee_amount) == fees.sequential_pre_fee_of(
            post_fee_amount,
        ),
{
    let tn = fees.trade_fee_numerator as u128;
    let td = fees.trade_fee_denominator as u128;
    let on = fees.owner_trade_fee_numerator as u128;
    let od = fees.owner_trade_fee_denominator as u128;
    let rest = pre_fee_of(post_fee_amount, on, od).unwrap();
    let a = pre_fee_of(rest, tn, td).unwrap();
    lemma_pre_fee_covers(rest, tn, td);
    let t = fee_of(a, tn, td).unwrap();
    let left = (a - t) as u128;
    lemma_fee_steps(rest, left, on, od);
    lemma_pre_fee_covers(post_fee_amount, on, od);
}

impl Fees {
    /// All four fractions are valid.
    pub open spec fn is_valid(&self) -> bool {
        &&& fraction_is_valid(self.trade_fee_numerator, self.trade_fee_denominator)
        &&& fraction_is_valid(self.owner_trade_fee_numerator, self.owner_trade_fee_denominator)
        &&& fraction_is_valid(
            self.owner_withdraw_fee_numerator,
            self.owner_withdraw_fee_denominator,
        )
        &&& fraction_is_valid(self.host_fee_numerator, self.host_fee_denominator)
    }

    /// The trade fee on an amount of trading tokens.
    pub open spec fn spec_trading_fee(&self, amount: u128) -> Option<u128> {
        fee_of(amount, self.trade_fee_numerator as u128, self.trade_fee_denominator as u128)
    }

    /// The owner trade fee on an amount of trading tokens.
    pub open spec fn spec_owner_trading_fee(&self, amount: u128) -> Option<u128> {
        fee_of(
            amount,
            self.owner_trade_fee_numerator as u128,
            self.owner_trade_fee_denominator as u128,
        )
    }

    /// The owner withdraw fee on an amount of pool tokens.
    pub open spec fn spec_owner_withdraw_fee(&self, amount: u128) -> Option<u128> {
        fee_of(
            amount,
            self.owner_withdraw_fee_numerator as u128,
            self.owner_withdraw_fee_denominator as u128,
        )
    }

    /// The host's share of an owner fee.
    pub open spec fn spec_host_fee(&self, owner_fee: u128) -> Option<u128> {
        fee_of(owner_fee, self.host_fee_numerator as u128, self.host_fee_denominator as u128)
    }

    /// What is left of `amount` after the trade fee and then the owner trade
    /// fee on the rest; `None` when a fee cannot be computed or exceeds what
    /// it is taken from.
    pub open spec fn net_after_fees(&self, amount: u128) -> Option<int> {
        match self.spec_trading_fee(amount) {
            None => None,
            Some(trade_fee) => if trade_fee > amount {
                None
            } else {
                match self.spec_owner_trading_fee((amount - trade_fee) as u128) {
                    None => None,
                    Some(owner_fee) => if owner_fee > amount - trade_fee {
                        None
                    } else {
                        Some(amount - trade_fee - owner_fee)
                    },
                }
            },
        }
    }

    /// A trade or owner fee fraction of one or more: no amount is left
    /// after it.
    pub open spec fn takes_everything(&self) -> bool {
        (self.trade_fee_denominator > 0 && self.trade_fee_numerator
            >= self.trade_fee_denominator) || (self.owner_trade_fee_denominator > 0
            && self.owner_trade_fee_numerator >= self.owner_trade_fee_denominator)
    }

    /// The two fees inverted in turn, each with a ceiling: first the owner
    /// fee, giving what must remain after the trade fee, then the trade fee.
    pub open spec fn sequential_pre_fee_of(&self, post_fee_amount: u128) -> Option<u128> {
        match pre_fee_of(
            post_fee_amount,
            self.owner_trade_fee_numerator as u128,
            self.owner_trade_fee_denominator as u128,
        ) {
            None => None,
            Some(rest) => pre_fee_of(
                rest,
                self.trade_fee_numerator as u128,
                self.trade_fee_denominator as u128,
            ),
        }
    }

    /// The amount before the trading fees that leaves `post_fee_amount`
    /// after the trade fee and then the owner fee on the rest: the two fees
    /// inverted in turn, kept only when the fees on it can be computed and
    /// leave enough.
    pub open spec fn spec_pre_trading_fee_amount(&self, post_fee_amount: u128) -> Option<u128> {
        if post_fee_amount > 0 && self.takes_everything() {
            None
        } else {
            match self.sequential_pre_fee_of(post_fee_amount) {
                None => None,
                Some(amount) => match self.net_after_fees(amount) {
                    Some(net) => if net >= post_fee_amount {
                        Some(amount)
                    } else {
                        None
                    },
                    None => None,
                },
            }
        }
    }

    /// Calculates the withdraw fee in pool tokens.
    pub fn owner_withdraw_fee(&self, pool_tokens: u128) -> (r: Option<u128>)
        ensures
            r == self.spec_owner_withdraw_fee(pool_tokens),
    {
        calculate_fee(
            pool_tokens,
            self.owner_withdraw_fee_numerator as u128,
            self.owner_withdraw_fee_denominator as u128,
        )
    }

    /// Calculates the trading fee in trading tokens.
    pub fn trading_fee(&self, trading_tokens: u128) -> (r: Option<u128>)
        ensures
            r == self.spec_trading_fee(trading_tokens),
    {
        calculate_fee(
            trading_tokens,
            self.trade_fee_numerator as u128,
            self.trade_fee_denominator as u128,
        )
    }

    /// Calculates the owner trading fee in trading tokens.
    pub fn owner_trading_fee(&self, trading_tokens: u128) -> (r: Option<u128>)
        ensures
            r == self.spec_owner_trading_fee(trading_tokens),
    {
        calculate_fee(
            trading_tokens,
            self.owner_trade_fee_numerator as u128,
            self.owner_trade_fee_denominator as u128,
        )
    }

    /// Calculates the inverse of the trading fees: the input needed to give
    /// the provided output once the trade fee, and then the owner fee on what
    /// it leaves, are taken off.
    pub fn pre_trading_fee_amount(&self, post_fee_amount: u128) -> (r: Option<u128>)
        ensures
            r == self.spec_pre_trading_fee_amount(post_fee_amount),
            r matches Some(a) ==> ({
                let t = fee_of(
                    a,
                    self.trade_fee_numerator as u128,
                    self.trade_fee_denominator as u128,
                );
                &&& t is Some
                &&& t.unwrap() <= a
                &&& fee_of(
                    (a - t.unwrap()) as u128,
                    self.owner_trade_fee_numerator as u128,
                    self.owner_trade_fee_denominator as u128,
                ) matches Some(o) && a - t.unwrap() - o >= post_fee_amount
            }),
    {
        if post_fee_amount > 0 && ((self.trade_fee_denominator > 0 && self.trade_fee_numerator
            >= self.trade_fee_denominator) || (self.owner_trade_fee_denominator > 0
            && self.owner_trade_fee_numerator >= self.owner_trade_fee_denominator)) {
            return None;
        }
        let rest = pre_fee_amount(
            post_fee_amount,
            self.owner_trade_fee_numerator as u128,
            self.owner_trade_fee_denominator as u128,
        )?;
        let amount = pre_fee_amount(
            rest,
            self.trade_fee_numerator as u128,
            self.trade_fee_denominator as u128,
        )?;
        let trade_fee = self.trading_fee(amount)?;
        if trade_fee > amount {
            return None;
        }
        let left = amount - trade_fee;
        let owner_fee = self.owner_trading_fee(left)?;
        if owner_fee > left || left - owner_fee < post_fee_amount {
            return None;
        }
        Some(amount)
    }

    /// Calculates the host fee out of an owner fee.
    pub fn host_fee(&self, owner_fee: u128) -> (r: Option<u128>)
        ensures
            r == self.spec_host_fee(owner_fee),
    {
        calculate_fee(
            owner_fee,
            self.host_fee_numerator as u128,
            self.host_fee_denominator as u128,
        )
    }

    /// Validates that each fee fraction is below one, or zero over zero.
    pub fn validate(&self) -> (r: Result<(), SwapError>)
        ensures
            r == (if self.is_valid() {
                Ok(())
            } else {
                Err(SwapError::InvalidFee)
            }),
    {
        match validate_fraction(self.trade_fee_numerator, self.trade_fee_denominator) {
            Ok(()) => {},
            Err(e) => return Err(e),
        }
        match validate_fraction(self.owner_trade_fee_numerator, self.owner_trade_fee_denominator) {
            Ok(()) => {},
            Err(e) => return Err(e),
        }
        match validate_fraction(
            self.owner_withdraw_fee_numerator,
            self.owner_withdraw_fee_denominator,
        ) {
            Ok(()) => {},
            Err(e) => return Err(e),
        }
        validate_fraction(self.host_fee_numerator, self.host_fee_denominator)
    }
}

} // verus!
