use token_swap::curve::base::{CurveCalculator, CurveType, SwapCurve};
use token_swap::curve::fees::Fees;
use token_swap::curve::offset::OffsetCurve;
use token_swap::state::{PackError, Pubkey, SwapV1, SwapVersion, LATEST_LEN, SWAP_V1_LEN};

const TEST_FEES: Fees = Fees {
    trade_fee_numerator: 1,
    trade_fee_denominator: 4,
    owner_trade_fee_numerator: 3,
    owner_trade_fee_denominator: 10,
    owner_withdraw_fee_numerator: 2,
    owner_withdraw_fee_denominator: 7,
    host_fee_numerator: 5,
    host_fee_denominator: 20,
};

const TEST_BUMP_SEED: u8 = 255;
const TEST_TOKEN_PROGRAM_ID: Pubkey = Pubkey([1u8; 32]);
const TEST_TOKEN_A: Pubkey = Pubkey([2u8; 32]);
const TEST_TOKEN_B: Pubkey = Pubkey([3u8; 32]);
const TEST_POOL_MINT: Pubkey = Pubkey([4u8; 32]);
const TEST_TOKEN_A_MINT: Pubkey = Pubkey([5u8; 32]);
const TEST_TOKEN_B_MINT: Pubkey = Pubkey([6u8; 32]);
const TEST_POOL_FEE_ACCOUNT: Pubkey = Pubkey([7u8; 32]);

const TEST_CURVE_TYPE: u8 = 2;
const TEST_TOKEN_B_OFFSET: u64 = 1_000_000_000;
const TEST_CURVE: OffsetCurve = OffsetCurve {
    token_b_offset: TEST_TOKEN_B_OFFSET,
};

#[test]
fn swap_version_pack() {
    let swap_curve = SwapCurve {
        calculator: CurveCalculator::Offset(TEST_CURVE),
    };
    assert_eq!(swap_curve.calculator.curve_type(), CurveType::Offset);
    let swap_info = SwapVersion::SwapV1(SwapV1 {
        is_initialized: true,
        bump_seed: TEST_BUMP_SEED,
        token_program_id: TEST_TOKEN_PROGRAM_ID,
        token_a: TEST_TOKEN_A,
        token_b: TEST_TOKEN_B,
        pool_mint: TEST_POOL_MINT,
        token_a_mint: TEST_TOKEN_A_MINT,
        token_b_mint: TEST_TOKEN_B_MINT,
        pool_fee_account: TEST_POOL_FEE_ACCOUNT,
        fees: TEST_FEES,
        swap_curve: swap_curve.clone(),
    });

    let mut packed = vec![0u8; LATEST_LEN];
    SwapVersion::pack(swap_info, &mut packed).unwrap();
    let unpacked = SwapVersion::unpack(&packed).unwrap();

    assert!(unpacked.is_initialized());
    assert_eq!(unpacked.bump_seed(), TEST_BUMP_SEED);
    assert_eq!(*unpacked.token_program_id(), TEST_TOKEN_PROGRAM_ID);
    assert_eq!(*unpacked.token_a_account(), TEST_TOKEN_A);
    assert_eq!(*unpacked.token_b_account(), TEST_TOKEN_B);
    assert_eq!(*unpacked.pool_mint(), TEST_POOL_MINT);
    assert_eq!(*unpacked.token_a_mint(), TEST_TOKEN_A_MINT);
    assert_eq!(*unpacked.token_b_mint(), TEST_TOKEN_B_MINT);
    assert_eq!(*unpacked.pool_fee_account(), TEST_POOL_FEE_ACCOUNT);
    assert_eq!(*unpacked.fees(), TEST_FEES);
    assert_eq!(*unpacked.swap_curve(), swap_curve);
}

#[test]
fn swap_v1_pack() {
    let swap_curve = SwapCurve {
        calculator: CurveCalculator::Offset(TEST_CURVE),
    };
    let swap_info = SwapV1 {
        is_initialized: true,
        bump_seed: TEST_BUMP_SEED,
        token_program_id: TEST_TOKEN_PROGRAM_ID,
        token_a: TEST_TOKEN_A,
        token_b: TEST_TOKEN_B,
        pool_mint: TEST_POOL_MINT,
        token_a_mint: TEST_TOKEN_A_MINT,
        token_b_mint: TEST_TOKEN_B_MINT,
        pool_fee_account: TEST_POOL_FEE_ACCOUNT,
        fees: TEST_FEES,
        swap_curve,
    };

    let packed = swap_info.pack();
    assert_eq!(packed.len(), SWAP_V1_LEN);
    let unpacked = SwapV1::unpack(&packed).unwrap();
    assert_eq!(swap_info, unpacked);

    let mut packed = vec![1u8, TEST_BUMP_SEED];
    packed.extend_from_slice(&TEST_TOKEN_PROGRAM_ID.0);
    packed.extend_from_slice(&TEST_TOKEN_A.0);
    packed.extend_from_slice(&TEST_TOKEN_B.0);
    packed.extend_from_slice(&TEST_POOL_MINT.0);
    packed.extend_from_slice(&TEST_TOKEN_A_MINT.0);
    packed.extend_from_slice(&TEST_TOKEN_B_MINT.0);
    packed.extend_from_slice(&TEST_POOL_FEE_ACCOUNT.0);
    packed.extend_from_slice(&TEST_FEES.trade_fee_numerator.to_le_bytes());
    packed.extend_from_slice(&TEST_FEES.trade_fee_denominator.to_le_bytes());
    packed.extend_from_slice(&TEST_FEES.owner_trade_fee_numerator.to_le_bytes());
    packed.extend_from_slice(&TEST_FEES.owner_trade_fee_denominator.to_le_bytes());
    packed.extend_from_slice(&TEST_FEES.owner_withdraw_fee_numerator.to_le_bytes());
    packed.extend_from_slice(&TEST_FEES.owner_withdraw_fee_denominator.to_le_bytes());
    packed.extend_from_slice(&TEST_FEES.host_fee_numerator.to_le_bytes());
    packed.extend_from_slice(&TEST_FEES.host_fee_denominator.to_le_bytes());
    packed.push(TEST_CURVE_TYPE);
    packed.extend_from_slice(&TEST_TOKEN_B_OFFSET.to_le_bytes());
    packed.extend_from_slice(&[0u8; 24]);
    let unpacked = SwapV1::unpack(&packed).unwrap();
    assert_eq!(swap_info, unpacked);

    let packed = [0u8; SWAP_V1_LEN];
    let swap_info: SwapV1 = Default::default();
    let unpack_unchecked = SwapV1::unpack_unchecked(&packed).unwrap();
    assert_eq!(unpack_unchecked, swap_info);
    let err = SwapV1::unpack(&packed).unwrap_err();
    assert_eq!(err, PackError::UninitializedAccount);
}

#[test]
fn unpack_rejects_bad_lengths_flags_and_versions() {
    let swap_info = SwapV1 {
        is_initialized: true,
        ..Default::default()
    };
    let packed = swap_info.pack();
    assert_eq!(SwapV1::unpack(&packed[..SWAP_V1_LEN - 1]), Err(PackError::InvalidAccountData));
    let mut bad_flag = packed.clone();
    bad_flag[0] = 2;
    assert_eq!(SwapV1::unpack(&bad_flag), Err(PackError::InvalidAccountData));
    let mut bad_curve = packed.clone();
    bad_curve[290] = 3;
    assert_eq!(SwapV1::unpack(&bad_curve), Err(PackError::InvalidAccountData));
    assert_eq!(SwapVersion::unpack(&[]), Err(PackError::InvalidAccountData));
    let mut versioned = vec![0u8];
    versioned.extend_from_slice(&packed);
    assert_eq!(SwapVersion::unpack(&versioned), Err(PackError::UninitializedAccount));
    assert!(!SwapVersion::is_initialized(&versioned));
    versioned[0] = 1;
    assert!(SwapVersion::is_initialized(&versioned));
    let mut short = vec![0u8; LATEST_LEN - 1];
    assert_eq!(
        SwapVersion::pack(SwapVersion::SwapV1(swap_info), &mut short),
        Err(PackError::InvalidAccountData)
    );
    assert_eq!(short, vec![0u8; LATEST_LEN - 1]);
}
