//! The packed form of a pool's state: a version byte followed by the
//! fields of the latest version, integers little-endian.

use crate::curve::base::{CurveCalculator, SwapCurve};
use crate::curve::constant_price::ConstantPriceCurve;
use crate::curve::constant_product::ConstantProductCurve;
use crate::curve::fees::Fees;
use crate::curve::offset::OffsetCurve;
use vstd::prelude::*;

verus! {

/// Why packed state could not be read or written.
#[derive(Clone, Copy, Debug, PartialEq, Eq, Structural)]
pub enum PackError {
    /// The buffer has the wrong length or holds an invalid field.
    InvalidAccountData,
    /// The state is not initialized.
    UninitializedAccount,
}

/// A 32-byte account address.
#[derive(Clone, Copy, Debug, PartialEq, Eq)]
pub struct Pubkey(pub [u8; 32]);

/// Packed length of the fees.
pub const FEES_LEN: usize = 64;

/// Packed length of a curve: a kind byte and 32 bytes of parameters.
pub const SWAP_CURVE_LEN: usize = 33;

/// Packed length of a version 1 pool.
pub const SWAP_V1_LEN: usize = 323;

/// Packed length of the latest version, with its version byte.
pub const LATEST_LEN: usize = 324;

/// The eight little-endian bytes of `v`.
pub open spec fn u64_le(v: u64) -> Seq<u8> {
    seq![
        (v & 0xff) as u8,
        ((v >> 8u64) & 0xff) as u8,
        ((v >> 16u64) & 0xff) as u8,
        ((v >> 24u64) & 0xff) as u8,
        ((v >> 32u64) & 0xff) as u8,
        ((v >> 40u64) & 0xff) as u8,
        ((v >> 48u64) & 0xff) as u8,
        ((v >> 56u64) & 0xff) as u8,
    ]
}

/// The integer whose little-endian bytes start at `at`.
pub open spec fn u64_at(b: Seq<u8>, at: int) -> u64 {
    (b[at] as u64) | ((b[at + 1] as u64) << 8u64) | ((b[at + 2] as u64) << 16u64) | ((b[at
        + 3] as u64) << 24u64) | ((b[at + 4] as u64) << 32u64) | ((b[at + 5] as u64) << 40u64)
        | ((b[at + 6] as u64) << 48u64) | ((b[at + 7] as u64) << 56u64)
}

/// `n` zero bytes.
pub open spec fn zeros(n: nat) -> Seq<u8> {
    Seq::new(n, |i: int| 0u8)
}

/// The packed fees: the eight fields in declaration order.
pub open spec fn fees_bytes(f: Fees) -> Seq<u8> {
    u64_le(f.trade_fee_numerator) + u64_le(f.trade_fee_denominator) + u64_le(
        f.owner_trade_fee_numerator,
    ) + u64_le(f.owner_trade_fee_denominator) + u64_le(f.owner_withdraw_fee_numerator) + u64_le(
        f.owner_withdraw_fee_denominator,
    ) + u64_le(f.host_fee_numerator) + u64_le(f.host_fee_denominator)
}

/// The fees packed at `at`.
pub open spec fn fees_at(b: Seq<u8>, at: int) -> Fees {
    Fees {
        trade_fee_numerator: u64_at(b, at),
        trade_fee_denominator: u64_at(b, at + 8),
        owner_trade_fee_numerator: u64_at(b, at + 16),
        owner_trade_fee_denominator: u64_at(b, at + 24),
        owner_withdraw_fee_numerator: u64_at(b, at + 32),
        owner_withdraw_fee_denominator: u64_at(b, at + 40),
        host_fee_numerator: u64_at(b, at + 48),
        host_fee_denominator: u64_at(b, at + 56),
    }
}

/// The packed curve: kind 0, 1 or 2, then the parameter, zero-padded.
pub open spec fn curve_bytes(c: SwapCurve) -> Seq<u8> {
    match c.calculator {
        CurveCalculator::ConstantProduct(_) => seq![0u8] + zeros(32),
        CurveCalculator::ConstantPrice(p) => seq![1u8] + u64_le(p.token_b_price) + zeros(24),
        CurveCalculator::Offset(o) => seq![2u8] + u64_le(o.token_b_offset) + zeros(24),
    }
}

/// The curve packed at `at`, or `None` for an unknown kind.
pub open spec fn curve_at(b: Seq<u8>, at: int) -> Option<SwapCurve> {
    if b[at] == 0 {
        Some(SwapCurve { calculator: CurveCalculator::ConstantProduct(ConstantProductCurve) })
    } else if b[at] == 1 {
        Some(
            SwapCurve {
                calculator: CurveCalculator::ConstantPrice(
                    ConstantPriceCurve { token_b_price: u64_at(b, at + 1) },
                ),
            },
        )
    } else if b[at] == 2 {
        Some(
            SwapCurve {
                calculator: CurveCalculator::Offset(
                    OffsetCurve { token_b_offset: u64_at(b, at + 1) },
                ),
            },
        )
    } else {
        None
    }
}

/// The 32 bytes at `at`, as an address.
pub open spec fn pubkey_at(b: Seq<u8>, at: int) -> Pubkey {
    choose|k: Pubkey| k.0@ == b.subrange(at, at + 32)
}

/// The pool state of version 1.
#[derive(Clone, Copy, Debug, PartialEq, Eq)]
pub struct SwapV1 {
    /// Whether the pool is initialized.
    pub is_initialized: bool,
    /// Bump seed of the pool's authority address.
    pub bump_seed: u8,
    /// Program of the tokens exchanged.
    pub token_program_id: Pubkey,
    /// Reserve account of token A.
    pub token_a: Pubkey,
    /// Reserve account of token B.
    pub token_b: Pubkey,
    /// Mint of the pool tokens.
    pub pool_mint: Pubkey,
    /// Mint of token A.
    pub token_a_mint: Pubkey,
    /// Mint of token B.
    pub token_b_mint: Pubkey,
    /// Pool-token account receiving the owner fees.
    pub pool_fee_account: Pubkey,
    /// Fees of the pool.
    pub fees: Fees,
    /// Curve of the pool.
    pub swap_curve: SwapCurve,
}

/// The packed version 1 state, 323 bytes.
pub open spec fn swap_v1_bytes(s: SwapV1) -> Seq<u8> {
    seq![if s.is_initialized { 1u8 } else { 0u8 }, s.bump_seed] + s.token_program_id.0@
        + s.token_a.0@ + s.token_b.0@ + s.pool_mint.0@ + s.token_a_mint.0@ + s.token_b_mint.0@
        + s.pool_fee_account.0@ + fees_bytes(s.fees) + curve_bytes(s.swap_curve)
}

/// The version 1 state packed in `b` at `at`, without the check that it is
/// initialized.
pub open spec fn swap_v1_at(b: Seq<u8>, at: int) -> Result<SwapV1, PackError> {
    if b[at] > 1 {
        Err(PackError::InvalidAccountData)
    } else {
        match curve_at(b, at + 290) {
            None => Err(PackError::InvalidAccountData),
            Some(swap_curve) => Ok(
                SwapV1 {
                    is_initialized: b[at] == 1,
                    bump_seed: b[at + 1],
                    token_program_id: pubkey_at(b, at + 2),
                    token_a: pubkey_at(b, at + 34),
                    token_b: pubkey_at(b, at + 66),
                    pool_mint: pubkey_at(b, at + 98),
                    token_a_mint: pubkey_at(b, at + 130),
                    token_b_mint: pubkey_at(b, at + 162),
                    pool_fee_account: pubkey_at(b, at + 194),
                    fees: fees_at(b, at + 226),
                    swap_curve,
                },
            ),
        }
    }
}

/// Reading a version 1 state: the length must be exact and the state
/// initialized.
pub open spec fn swap_v1_unpack_of(b: Seq<u8>) -> Result<SwapV1, PackError> {
    if b.len() != SWAP_V1_LEN {
        Err(PackError::InvalidAccountData)
    } else {
        match swap_v1_at(b, 0) {
            Err(e) => Err(e),
            Ok(s) => if s.is_initialized {
                Ok(s)
            } else {
                Err(PackError::UninitializedAccount)
            },
        }
    }
}

fn push_u64(out: &mut Vec<u8>, v: u64)
    ensures
        final(out)@ == old(out)@ + u64_le(v),
{
    out.push((v & 0xff) as u8);
    out.push(((v >> 8) & 0xff) as u8);
    out.push(((v >> 16) & 0xff) as u8);
    out.push(((v >> 24) & 0xff) as u8);
    out.push(((v >> 32) & 0xff) as u8);
    out.push(((v >> 40) & 0xff) as u8);
    out.push(((v >> 48) & 0xff) as u8);
    out.push(((v >> 56) & 0xff) as u8);
    assert(final(out)@ =~= old(out)@ + u64_le(v));
}

fn read_u64(input: &[u8], at: usize) -> (r: u64)
    requires
        at + 8 <= input@.len(),
    ensures
        r == u64_at(input@, at as int),
{
    (input[at] as u64) | ((input[at + 1] as u64) << 8) | ((input[at + 2] as u64) << 16) | ((
    input[at + 3] as u64) << 24) | ((input[at + 4] as u64) << 32) | ((input[at + 5] as u64) << 40)
        | ((input[at + 6] as u64) << 48) | ((input[at + 7] as u64) << 56)
}

fn push_zeros(out: &mut Vec<u8>, n: usize)
    ensures
        final(out)@ == old(out)@ + zeros(n as nat),
{
    let mut i: usize = 0;
    while i < n
        invariant
            i <= n,
            out@ == old(out)@ + zeros(i as nat),
        decreases n - i,
    {
        out.push(0u8);
        i += 1;
        assert(out@ =~= old(out)@ + zeros(i as nat));
    }
}

fn push_pubkey(out: &mut Vec<u8>, key: &Pubkey)
    ensures
        final(out)@ == old(out)@ + key.0@,
{
    let mut i: usize = 0;
    while i < 32
        invariant
            i <= 32,
            out@ == old(out)@ + key.0@.subrange(0, i as int),
        decreases 32 - i,
    {
        out.push(key.0[i]);
        i += 1;
        assert(out@ =~= old(out)@ + key.0@.subrange(0, i as int));
    }
    assert(key.0@.subrange(0, 32) =~= key.0@);
}

fn read_pubkey(input: &[u8], at: usize) -> (r: Pubkey)
    requires
        at + 32 <= input@.len(),
    ensures
        r.0@ == input@.subrange(at as int, at + 32),
{
    let n = input.len();
    let mut key = [0u8; 32];
    let mut i: usize = 0;
    while i < 32
        invariant
            i <= 32,
            at + 32 <= n,
            n == input@.len(),
            forall|j: int| 0 <= j < i ==> key@[j] == input@[at + j],
        decreases 32 - i,
    {
        key[i] = input[at + i];
        i += 1;
    }
    assert(key@ =~= input@.subrange(at as int, at + 32));
    Pubkey(key)
}

impl Fees {
    /// The packed fees.
    pub fn pack(&self) -> (r: Vec<u8>)
        ensures
            r@ == fees_bytes(*self),
    {
        let mut out: Vec<u8> = Vec::new();
        self.pack_onto(&mut out);
        assert(out@ =~= fees_bytes(*self));
        out
    }

    fn pack_onto(&self, out: &mut Vec<u8>)
        ensures
            final(out)@ == old(out)@ + fees_bytes(*self),
    {
        push_u64(out, self.trade_fee_numerator);
        push_u64(out, self.trade_fee_denominator);
        push_u64(out, self.owner_trade_fee_numerator);
        push_u64(out, self.owner_trade_fee_denominator);
        push_u64(out, self.owner_withdraw_fee_numerator);
        push_u64(out, self.owner_withdraw_fee_denominator);
        push_u64(out, self.host_fee_numerator);
        push_u64(out, self.host_fee_denominator);
        assert(final(out)@ =~= old(out)@ + fees_bytes(*self));
    }

    /// Reads fees from the first 64 bytes of `input`.
    pub fn unpack_from_slice(input: &[u8]) -> (r: Result<Fees, PackError>)
        ensures
            r == (if input@.len() < FEES_LEN {
                Err(PackError::InvalidAccountData)
            } else {
                Ok(fees_at(input@, 0))
            }),
    {
        if input.len() < FEES_LEN {
            return Err(PackError::InvalidAccountData);
        }
        Ok(Fees::read_at(input, 0))
    }

    fn read_at(input: &[u8], at: usize) -> (r: Fees)
        requires
            at + 64 <= input@.len(),
        ensures
            r == fees_at(input@, at as int),
    {
        let n = input.len();
        assert(at + 64 <= n);
        Fees {
            trade_fee_numerator: read_u64(input, at),
            trade_fee_denominator: read_u64(input, at + 8),
            owner_trade_fee_numerator: read_u64(input, at + 16),
            owner_trade_fee_denominator: read_u64(input, at + 24),
            owner_withdraw_fee_numerator: read_u64(input, at + 32),
            owner_withdraw_fee_denominator: read_u64(input, at + 40),
            host_fee_numerator: read_u64(input, at + 48),
            host_fee_denominator: read_u64(input, at + 56),
        }
    }
}

impl ConstantProductCurve {
    /// The curve packs to no bytes.
    pub fn pack(&self) -> (r: Vec<u8>)
        ensures
            r@.len() == 0,
    {
        Vec::new()
    }

    /// Reads the curve from its packed form, which is empty.
    pub fn unpack(input: &[u8]) -> (r: Result<ConstantProductCurve, PackError>)
        ensures
            r == (if input@.len() == 0 {
                Ok(ConstantProductCurve)
            } else {
                Err(PackError::InvalidAccountData)
            }),
    {
        if input.len() == 0 {
            Ok(ConstantProductCurve)
        } else {
            Err(PackError::InvalidAccountData)
        }
    }
}

impl ConstantPriceCurve {
    /// The price, as eight little-endian bytes.
    pub fn pack(&self) -> (r: Vec<u8>)
        ensures
            r@ == u64_le(self.token_b_price),
    {
        let mut out: Vec<u8> = Vec::new();
        push_u64(&mut out, self.token_b_price);
        assert(out@ =~= u64_le(self.token_b_price));
        out
    }

    /// Reads the curve from exactly eight bytes.
    pub fn unpack(input: &[u8]) -> (r: Result<ConstantPriceCurve, PackError>)
        ensures
            r == (if input@.len() == 8 {
                Ok(ConstantPriceCurve { token_b_price: u64_at(input@, 0) })
            } else {
                Err(PackError::InvalidAccountData)
            }),
    {
        if input.len() != 8 {
            return Err(PackError::InvalidAccountData);
        }
        Ok(ConstantPriceCurve { token_b_price: read_u64(input, 0) })
    }
}

impl SwapCurve {
    /// The packed curve.
    pub fn pack(&self) -> (r: Vec<u8>)
        ensures
            r@ == curve_bytes(*self),
    {
        let mut out: Vec<u8> = Vec::new();
        self.pack_onto(&mut out);
        assert(out@ =~= curve_bytes(*self));
        out
    }

    fn pack_onto(&self, out: &mut Vec<u8>)
        ensures
            final(out)@ == old(out)@ + curve_bytes(*self),
    {
        match self.calculator {
            CurveCalculator::ConstantProduct(_) => {
                out.push(0u8);
                push_zeros(out, 32);
            },
            CurveCalculator::ConstantPrice(c) => {
                out.push(1u8);
                push_u64(out, c.token_b_price);
                push_zeros(out, 24);
            },
            CurveCalculator::Offset(c) => {
                out.push(2u8);
                push_u64(out, c.token_b_offset);
                push_zeros(out, 24);
            },
        }
        assert(final(out)@ =~= old(out)@ + curve_bytes(*self));
    }

    /// Reads a curve from the first 33 bytes of `input`.
    pub fn unpack_from_slice(input: &[u8]) -> (r: Result<SwapCurve, PackError>)
        ensures
            r == (if input@.len() < SWAP_CURVE_LEN {
                Err(PackError::InvalidAccountData)
            } else {
                match curve_at(input@, 0) {
                    Some(c) => Ok(c),
                    None => Err(PackError::InvalidAccountData),
                }
            }),
    {
        if input.len() < SWAP_CURVE_LEN {
            return Err(PackError::InvalidAccountData);
        }
        match SwapCurve::read_at(input, 0) {
            Some(c) => Ok(c),
            None => Err(PackError::InvalidAccountData),
        }
    }

    fn read_at(input: &[u8], at: usize) -> (r: Option<SwapCurve>)
        requires
            at + 33 <= input@.len(),
        ensures
            r == curve_at(input@, at as int),
    {
        let n = input.len();
        assert(at + 33 <= n);
        let kind = input[at];
        if kind == 0 {
            Some(SwapCurve { calculator: CurveCalculator::ConstantProduct(ConstantProductCurve) })
        } else if kind == 1 {
            Some(
                SwapCurve {
                    calculator: CurveCalculator::ConstantPrice(
                        ConstantPriceCurve { token_b_price: read_u64(input, at + 1) },
                    ),
                },
            )
        } else if kind == 2 {
            Some(
                SwapCurve {
                    calculator: CurveCalculator::Offset(
                        OffsetCurve { token_b_offset: read_u64(input, at + 1) },
                    ),
                },
            )
        } else {
            None
        }
    }
}

impl SwapV1 {
    /// Whether the pool is initialized.
    pub fn is_initialized(&self) -> (r: bool)
        ensures
            r == self.is_initialized,
    {
        self.is_initialized
    }

    /// Bump seed of the pool's authority address.
    pub fn bump_seed(&self) -> (r: u8)
        ensures
            r == self.bump_seed,
    {
        self.bump_seed
    }

    /// Program of the tokens exchanged.
    pub fn token_program_id(&self) -> (r: &Pubkey)
        ensures
            *r == self.token_program_id,
    {
        &self.token_program_id
    }

    /// Reserve account of token A.
    pub fn token_a_account(&self) -> (r: &Pubkey)
        ensures
            *r == self.token_a,
    {
        &self.token_a
    }

    /// Reserve account of token B.
    pub fn token_b_account(&self) -> (r: &Pubkey)
        ensures
            *r == self.token_b,
    {
        &self.token_b
    }

    /// Mint of the pool tokens.
    pub fn pool_mint(&self) -> (r: &Pubkey)
        ensures
            *r == self.pool_mint,
    {
        &self.pool_mint
    }

    /// Mint of token A.
    pub fn token_a_mint(&self) -> (r: &Pubkey)
        ensures
            *r == self.token_a_mint,
    {
        &self.token_a_mint
    }

    /// Mint of token B.
    pub fn token_b_mint(&self) -> (r: &Pubkey)
        ensures
            *r == self.token_b_mint,
    {
        &self.token_b_mint
    }

    /// Pool-token account receiving the owner fees.
    pub fn pool_fee_account(&self) -> (r: &Pubkey)
        ensures
            *r == self.pool_fee_account,
    {
        &self.pool_fee_account
    }

    /// Fees of the pool.
    pub fn fees(&self) -> (r: &Fees)
        ensures
            *r == self.fees,
    {
        &self.fees
    }

    /// Curve of the pool.
    pub fn swap_curve(&self) -> (r: &SwapCurve)
        ensures
            *r == self.swap_curve,
    {
        &self.swap_curve
    }

    /// The packed state.
    pub fn pack(&self) -> (r: Vec<u8>)
        ensures
            r@ == swap_v1_bytes(*self),
    {
        let mut out: Vec<u8> = Vec::new();
        self.pack_onto(&mut out);
        assert(out@ =~= swap_v1_bytes(*self));
        out
    }

    fn pack_onto(&self, out: &mut Vec<u8>)
        ensures
            final(out)@ == old(out)@ + swap_v1_bytes(*self),
    {
        out.push(
            if self.is_initialized {
                1u8
            } else {
                0u8
            },
        );
        out.push(self.bump_seed);
        push_pubkey(out, &self.token_program_id);
        push_pubkey(out, &self.token_a);
        push_pubkey(out, &self.token_b);
        push_pubkey(out, &self.pool_mint);
        push_pubkey(out, &self.token_a_mint);
        push_pubkey(out, &self.token_b_mint);
        push_pubkey(out, &self.pool_fee_account);
        self.fees.pack_onto(out);
        self.swap_curve.pack_onto(out);
        assert(final(out)@ =~= old(out)@ + swap_v1_bytes(*self));
    }

    fn read_at(input: &[u8], at: usize) -> (r: Result<SwapV1, PackError>)
        requires
            at + 323 <= input@.len(),
        ensures
            r == swap_v1_at(input@, at as int),
    {
        let n = input.len();
        assert(at + 323 <= n);
        let flag = input[at];
        if flag > 1 {
            return Err(PackError::InvalidAccountData);
        }
        let swap_curve = match SwapCurve::read_at(input, at + 290) {
            Some(c) => c,
            None => return Err(PackError::InvalidAccountData),
        };
        let token_program_id = read_pubkey(input, at + 2);
        let token_a = read_pubkey(input, at + 34);
        let token_b = read_pubkey(input, at + 66);
        let pool_mint = read_pubkey(input, at + 98);
        let token_a_mint = read_pubkey(input, at + 130);
        let token_b_mint = read_pubkey(input, at + 162);
        let pool_fee_account = read_pubkey(input, at + 194);
        proof {
            lemma_pubkey_at(input@, at + 2, token_program_id);
            lemma_pubkey_at(input@, at + 34, token_a);
            lemma_pubkey_at(input@, at + 66, token_b);
            lemma_pubkey_at(input@, at + 98, pool_mint);
            lemma_pubkey_at(input@, at + 130, token_a_mint);
            lemma_pubkey_at(input@, at + 162, token_b_mint);
            lemma_pubkey_at(input@, at + 194, pool_fee_account);
        }
        Ok(
            SwapV1 {
                is_initialized: flag == 1,
                bump_seed: input[at + 1],
                token_program_id,
                token_a,
                token_b,
                pool_mint,
                token_a_mint,
                token_b_mint,
                pool_fee_account,
                fees: Fees::read_at(input, at + 226),
                swap_curve,
            },
        )
    }

    /// Reads a state of exactly 323 bytes, initialized or not.
    pub fn unpack_unchecked(input: &[u8]) -> (r: Result<SwapV1, PackError>)
        ensures
            r == (if input@.len() != SWAP_V1_LEN {
                Err(PackError::InvalidAccountData)
            } else {
                swap_v1_at(input@, 0)
            }),
    {
        if input.len() != SWAP_V1_LEN {
            return Err(PackError::InvalidAccountData);
        }
        SwapV1::read_at(input, 0)
    }

    /// Reads a state of exactly 323 bytes, which must be initialized.
    pub fn unpack(input: &[u8]) -> (r: Result<SwapV1, PackError>)
        ensures
            r == swap_v1_unpack_of(input@),
    {
        let swap = SwapV1::unpack_unchecked(input)?;
        if swap.is_initialized {
            Ok(swap)
        } else {
            Err(PackError::UninitializedAccount)
        }
    }
}

impl Default for SwapV1 {
    /// The state that 323 zero bytes hold.
    fn default() -> (r: SwapV1)
        ensures
            r == swap_v1_at(zeros(323), 0).unwrap(),
    {
        let zero_key = Pubkey([0u8; 32]);
        let r = SwapV1 {
            is_initialized: false,
            bump_seed: 0,
            token_program_id: zero_key,
            token_a: zero_key,
            token_b: zero_key,
            pool_mint: zero_key,
            token_a_mint: zero_key,
            token_b_mint: zero_key,
            pool_fee_account: zero_key,
            fees: Fees {
                trade_fee_numerator: 0,
                trade_fee_denominator: 0,
                owner_trade_fee_numerator: 0,
                owner_trade_fee_denominator: 0,
                owner_withdraw_fee_numerator: 0,
                owner_withdraw_fee_denominator: 0,
                host_fee_numerator: 0,
                host_fee_denominator: 0,
            },
            swap_curve: SwapCurve {
                calculator: CurveCalculator::ConstantProduct(ConstantProductCurve),
            },
        };
        proof {
            let z = zeros(323);
            assert(zero_key.0@ =~= z.subrange(2, 34));
            assert(zero_key.0@ =~= z.subrange(34, 66));
            assert(zero_key.0@ =~= z.subrange(66, 98));
            assert(zero_key.0@ =~= z.subrange(98, 130));
            assert(zero_key.0@ =~= z.subrange(130, 162));
            assert(zero_key.0@ =~= z.subrange(162, 194));
            assert(zero_key.0@ =~= z.subrange(194, 226));
            lemma_pubkey_at(z, 2, zero_key);
            lemma_pubkey_at(z, 34, zero_key);
            lemma_pubkey_at(z, 66, zero_key);
            lemma_pubkey_at(z, 98, zero_key);
            lemma_pubkey_at(z, 130, zero_key);
            lemma_pubkey_at(z, 162, zero_key);
            lemma_pubkey_at(z, 194, zero_key);
            assert(u64_at(z, 226) == 0) by {
                assert(0u8 as u64 | ((0u8 as u64) << 8u64) | ((0u8 as u64) << 16u64) | ((0u8
                    as u64) << 24u64) | ((0u8 as u64) << 32u64) | ((0u8 as u64) << 40u64) | ((0u8
                    as u64) << 48u64) | ((0u8 as u64) << 56u64) == 0) by (bit_vector);
            }
        }
        r
    }
}

/// All versions of the pool state.
#[derive(Clone, Copy, Debug, PartialEq, Eq)]
pub enum SwapVersion {
    /// The latest version, used for all new pools.
    SwapV1(SwapV1),
}

/// Reading the latest packed state: a version byte of 1, then an
/// initialized version 1 state.
pub open spec fn swap_version_unpack_of(b: Seq<u8>) -> Result<SwapV1, PackError> {
    if b.len() == 0 {
        Err(PackError::InvalidAccountData)
    } else if b[0] == 1 {
        swap_v1_unpack_of(b.subrange(1, b.len() as int))
    } else {
        Err(PackError::UninitializedAccount)
    }
}

impl SwapVersion {
    /// Packs the state with its version byte into `dst`, which must be
    /// exactly `LATEST_LEN` bytes long; otherwise `dst` is left alone.
    pub fn pack(src: Self, dst: &mut Vec<u8>) -> (r: Result<(), PackError>)
        ensures
            old(dst)@.len() == LATEST_LEN ==> r == Ok::<(), PackError>(()) && final(dst)@ == seq![
                1u8,
            ] + match src {
                SwapVersion::SwapV1(s) => swap_v1_bytes(s),
            },
            old(dst)@.len() != LATEST_LEN ==> r == Err::<(), PackError>(
                PackError::InvalidAccountData,
            ) && final(dst)@ == old(dst)@,
    {
        if dst.len() != LATEST_LEN {
            return Err(PackError::InvalidAccountData);
        }
        match src {
            SwapVersion::SwapV1(swap_info) => {
                let mut out: Vec<u8> = Vec::new();
                out.push(1u8);
                swap_info.pack_onto(&mut out);
                *dst = out;
                assert(dst@ =~= seq![1u8] + swap_v1_bytes(swap_info));
                Ok(())
            },
        }
    }

    /// Reads the state behind its version byte.
    pub fn unpack(input: &[u8]) -> (r: Result<SwapV1, PackError>)
        ensures
            r == swap_version_unpack_of(input@),
    {
        if input.len() == 0 {
            return Err(PackError::InvalidAccountData);
        }
        if input[0] != 1 {
            return Err(PackError::UninitializedAccount);
        }
        let (_, rest) = input.split_at(1);
        SwapV1::unpack(rest)
    }

    /// Whether `input` holds an initialized pool of a known version.
    pub fn is_initialized(input: &[u8]) -> (r: bool)
        ensures
            r == (swap_version_unpack_of(input@) is Ok),
    {
        match Self::unpack(input) {
            Ok(swap) => swap.is_initialized(),
            Err(_) => false,
        }
    }
}

/// Reading little-endian bytes gives back the integer they were written from.
proof fn lemma_u64_le_round_trip(v: u64)
    ensures
        ((v & 0xff) as u8 as u64) | ((((v >> 8u64) & 0xff) as u8 as u64) << 8u64) | ((((v
            >> 16u64) & 0xff) as u8 as u64) << 16u64) | ((((v >> 24u64) & 0xff) as u8 as u64)
            << 24u64) | ((((v >> 32u64) & 0xff) as u8 as u64) << 32u64) | ((((v >> 40u64)
            & 0xff) as u8 as u64) << 40u64) | ((((v >> 48u64) & 0xff) as u8 as u64) << 48u64)
            | ((((v >> 56u64) & 0xff) as u8 as u64) << 56u64) == v,
{
    assert(((v & 0xff) as u8 as u64) | ((((v >> 8u64) & 0xff) as u8 as u64) << 8u64) | ((((v
        >> 16u64) & 0xff) as u8 as u64) << 16u64) | ((((v >> 24u64) & 0xff) as u8 as u64)
        << 24u64) | ((((v >> 32u64) & 0xff) as u8 as u64) << 32u64) | ((((v >> 40u64) & 0xff)
        as u8 as u64) << 40u64) | ((((v >> 48u64) & 0xff) as u8 as u64) << 48u64) | ((((v
        >> 56u64) & 0xff) as u8 as u64) << 56u64) == v) by (bit_vector);
}

proof fn lemma_u64_at(b: Seq<u8>, at: int, v: u64)
    requires
        0 <= at,
        at + 8 <= b.len(),
        b.subrange(at, at + 8) == u64_le(v),
    ensures
        u64_at(b, at) == v,
{
    assert forall|j: int| 0 <= j < 8 implies b[at + j] == u64_le(v)[j] by {
        assert(b.subrange(at, at + 8)[j] == b[at + j]);
    }
    lemma_u64_le_round_trip(v);
}

proof fn lemma_pubkey_at(b: Seq<u8>, at: int, key: Pubkey)
    requires
        key.0@ == b.subrange(at, at + 32),
    ensures
        pubkey_at(b, at) == key,
{
    let k = pubkey_at(b, at);
    assert(k.0@ == key.0@);
    assert(k.0 =~= key.0);
}

proof fn lemma_subrange_within(b: Seq<u8>, at: int, len: int, piece: Seq<u8>, i: int, n: int)
    requires
        0 <= at,
        at + len <= b.len(),
        b.subrange(at, at + len) == piece,
        0 <= i,
        0 <= n,
        i + n <= len,
    ensures
        b.subrange(at + i, at + i + n) == piece.subrange(i, i + n),
{
    assert forall|j: int| 0 <= j < n implies #[trigger] b.subrange(at + i, at + i + n)[j]
        == piece.subrange(i, i + n)[j] by {
        assert(b.subrange(at, at + len)[i + j] == b[at + i + j]);
    }
    assert(b.subrange(at + i, at + i + n) =~= piece.subrange(i, i + n));
}

proof fn lemma_fees_at(b: Seq<u8>, at: int, f: Fees)
    requires
        0 <= at,
        at + 64 <= b.len(),
        b.subrange(at, at + 64) == fees_bytes(f),
    ensures
        fees_at(b, at) == f,
{
    let fb = fees_bytes(f);
    assert(fb.subrange(0, 8) =~= u64_le(f.trade_fee_numerator));
    assert(fb.subrange(8, 16) =~= u64_le(f.trade_fee_denominator));
    assert(fb.subrange(16, 24) =~= u64_le(f.owner_trade_fee_numerator));
    assert(fb.subrange(24, 32) =~= u64_le(f.owner_trade_fee_denominator));
    assert(fb.subrange(32, 40) =~= u64_le(f.owner_withdraw_fee_numerator));
    assert(fb.subrange(40, 48) =~= u64_le(f.owner_withdraw_fee_denominator));
    assert(fb.subrange(48, 56) =~= u64_le(f.host_fee_numerator));
    assert(fb.subrange(56, 64) =~= u64_le(f.host_fee_denominator));
    lemma_subrange_within(b, at, 64, fb, 0, 8);
    lemma_subrange_within(b, at, 64, fb, 8, 8);
    lemma_subrange_within(b, at, 64, fb, 16, 8);
    lemma_subrange_within(b, at, 64, fb, 24, 8);
    lemma_subrange_within(b, at, 64, fb, 32, 8);
    lemma_subrange_within(b, at, 64, fb, 40, 8);
    lemma_subrange_within(b, at, 64, fb, 48, 8);
    lemma_subrange_within(b, at, 64, fb, 56, 8);
    lemma_u64_at(b, at, f.trade_fee_numerator);
    lemma_u64_at(b, at + 8, f.trade_fee_denominator);
    lemma_u64_at(b, at + 16, f.owner_trade_fee_numerator);
    lemma_u64_at(b, at + 24, f.owner_trade_fee_denominator);
    lemma_u64_at(b, at + 32, f.owner_withdraw_fee_numerator);
    lemma_u64_at(b, at + 40, f.owner_withdraw_fee_denominator);
    lemma_u64_at(b, at + 48, f.host_fee_numerator);
    lemma_u64_at(b, at + 56, f.host_fee_denominator);
}

/// Fees read back from their packed form are the fees packed.
pub proof fn lemma_fees_round_trip(f: Fees)
    ensures
        fees_at(fees_bytes(f), 0) == f,
{
    let b = fees_bytes(f);
    assert(b.subrange(0, 64) =~= b);
    lemma_fees_at(b, 0, f);
}

proof fn lemma_concat_parts(x: Seq<u8>, y: Seq<u8>)
    ensures
        (x + y).subrange(0, x.len() as int) == x,
        (x + y).subrange(x.len() as int, (x.len() + y.len()) as int) == y,
{
    assert((x + y).subrange(0, x.len() as int) =~= x);
    assert((x + y).subrange(x.len() as int, (x.len() + y.len()) as int) =~= y);
}

proof fn lemma_curve_at(b: Seq<u8>, at: int, c: SwapCurve)
    requires
        0 <= at,
        at + 33 <= b.len(),
        b.subrange(at, at + 33) == curve_bytes(c),
    ensures
        curve_at(b, at) == Some(c),
{
    let cb = curve_bytes(c);
    assert(b[at] == b.subrange(at, at + 33)[0]);
    lemma_subrange_within(b, at, 33, cb, 1, 8);
    match c.calculator {
        CurveCalculator::ConstantProduct(_) => {},
        CurveCalculator::ConstantPrice(p) => {
            assert(cb.subrange(1, 9) =~= u64_le(p.token_b_price));
            lemma_u64_at(b, at + 1, p.token_b_price);
        },
        CurveCalculator::Offset(o) => {
            assert(cb.subrange(1, 9) =~= u64_le(o.token_b_offset));
            lemma_u64_at(b, at + 1, o.token_b_offset);
        },
    }
}

proof fn lemma_swap_v1_pieces(s: SwapV1)
    ensures
        ({
            let b = swap_v1_bytes(s);
            &&& b.len() == 323
            &&& b[0] == (if s.is_initialized { 1u8 } else { 0u8 })
            &&& b[1] == s.bump_seed
            &&& b.subrange(2, 34) == s.token_program_id.0@
            &&& b.subrange(34, 66) == s.token_a.0@
            &&& b.subrange(66, 98) == s.token_b.0@
            &&& b.subrange(98, 130) == s.pool_mint.0@
            &&& b.subrange(130, 162) == s.token_a_mint.0@
            &&& b.subrange(162, 194) == s.token_b_mint.0@
            &&& b.subrange(194, 226) == s.pool_fee_account.0@
            &&& b.subrange(226, 290) == fees_bytes(s.fees)
            &&& b.subrange(290, 323) == curve_bytes(s.swap_curve)
        }),
{
    let prefix0 = seq![if s.is_initialized { 1u8 } else { 0u8 }, s.bump_seed];
    let prefix1 = prefix0 + s.token_program_id.0@;
    let prefix2 = prefix1 + s.token_a.0@;
    let prefix3 = prefix2 + s.token_b.0@;
    let prefix4 = prefix3 + s.pool_mint.0@;
    let prefix5 = prefix4 + s.token_a_mint.0@;
    let prefix6 = prefix5 + s.token_b_mint.0@;
    let prefix7 = prefix6 + s.pool_fee_account.0@;
    let prefix8 = prefix7 + fees_bytes(s.fees);
    let b = prefix8 + curve_bytes(s.swap_curve);
    assert(b == swap_v1_bytes(s));
    lemma_concat_parts(prefix8, curve_bytes(s.swap_curve));
    lemma_concat_parts(prefix7, fees_bytes(s.fees));
    lemma_concat_parts(prefix6, s.pool_fee_account.0@);
    lemma_concat_parts(prefix5, s.token_b_mint.0@);
    lemma_concat_parts(prefix4, s.token_a_mint.0@);
    lemma_concat_parts(prefix3, s.pool_mint.0@);
    lemma_concat_parts(prefix2, s.token_b.0@);
    lemma_concat_parts(prefix1, s.token_a.0@);
    lemma_concat_parts(prefix0, s.token_program_id.0@);
    lemma_subrange_within(b, 0, 290, prefix8, 0, 226);
    lemma_subrange_within(b, 0, 290, prefix8, 226, 64);
    lemma_subrange_within(b, 0, 226, prefix7, 0, 194);
    lemma_subrange_within(b, 0, 226, prefix7, 194, 32);
    lemma_subrange_within(b, 0, 194, prefix6, 0, 162);
    lemma_subrange_within(b, 0, 194, prefix6, 162, 32);
    lemma_subrange_within(b, 0, 162, prefix5, 0, 130);
    lemma_subrange_within(b, 0, 162, prefix5, 130, 32);
    lemma_subrange_within(b, 0, 130, prefix4, 0, 98);
    lemma_subrange_within(b, 0, 130, prefix4, 98, 32);
    lemma_subrange_within(b, 0, 98, prefix3, 0, 66);
    lemma_subrange_within(b, 0, 98, prefix3, 66, 32);
    lemma_subrange_within(b, 0, 66, prefix2, 0, 34);
    lemma_subrange_within(b, 0, 66, prefix2, 34, 32);
    lemma_subrange_within(b, 0, 34, prefix1, 0, 2);
    lemma_subrange_within(b, 0, 34, prefix1, 2, 32);
    assert(b[0] == prefix0[0] && b[1] == prefix0[1]) by {
        assert(b.subrange(0, 2)[0] == b[0]);
        assert(b.subrange(0, 2)[1] == b[1]);
    }
}

/// A version 1 state read back from its packed form is the state packed,
/// when it is initialized.
pub proof fn lemma_swap_v1_round_trip(s: SwapV1)
    requires
        s.is_initialized,
    ensures
        swap_v1_unpack_of(swap_v1_bytes(s)) == Ok::<SwapV1, PackError>(s),
{
    let b = swap_v1_bytes(s);
    lemma_swap_v1_pieces(s);
    lemma_pubkey_at(b, 2, s.token_program_id);
    lemma_pubkey_at(b, 34, s.token_a);
    lemma_pubkey_at(b, 66, s.token_b);
    lemma_pubkey_at(b, 98, s.pool_mint);
    lemma_pubkey_at(b, 130, s.token_a_mint);
    lemma_pubkey_at(b, 162, s.token_b_mint);
    lemma_pubkey_at(b, 194, s.pool_fee_account);
    lemma_fees_at(b, 226, s.fees);
    lemma_curve_at(b, 290, s.swap_curve);
}

/// The latest packed state, version byte included, reads back as the state
/// packed, when it is initialized.
pub proof fn lemma_swap_version_round_trip(s: SwapV1)
    requires
        s.is_initialized,
    ensures
        swap_version_unpack_of(seq![1u8] + swap_v1_bytes(s)) == Ok::<SwapV1, PackError>(s),
{
    let b = seq![1u8] + swap_v1_bytes(s);
    assert(b.subrange(1, b.len() as int) =~= swap_v1_bytes(s));
    lemma_swap_v1_round_trip(s);
}

} // verus!
