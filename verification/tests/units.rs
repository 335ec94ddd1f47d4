use fundraiser::address::{contributor_address, fundraiser_address, same_address, vault_address};
use fundraiser::constants::{CONTRIBUTOR_SEED, FUNDRAISER_SEED};
use fundraiser::error::{FundraiserError, ProgramError};
use fundraiser::instructions::checker::begin_check_contributions;
use fundraiser::instructions::close_account_lamports;
use fundraiser::instructions::initialize::{check_amount_to_raise, parse_initialize, INITIALIZE_MIN_ACCOUNTS};
use fundraiser::instructions::check_min_accounts;
use fundraiser::instructions::{decode_instruction, FundraiserInstructions};
use fundraiser::le_bytes::{i64_to_le, read_i64_le, read_u64_le, u64_from_le, u64_to_le};
use fundraiser::rules::{checked_pow10, elapsed_days, max_contribution, min_amount_to_raise, min_contribution};
use fundraiser::state::contributor::Contributor;
use fundraiser::state::fundraiser::Fundraiser;

#[test]
fn error_codes_follow_the_documented_table() {
    let all = [
        FundraiserError::InvalidAmount,
        FundraiserError::ContributionTooSmall,
        FundraiserError::ContributionTooBig,
        FundraiserError::MaximumContributionsReached,
        FundraiserError::FundraiserEnded,
        FundraiserError::TargetNotMet,
        FundraiserError::TargetMet,
        FundraiserError::InvalidVault,
        FundraiserError::FundraiserNotEnded,
    ];
    for (i, e) in all.iter().enumerate() {
        assert_eq!(e.code(), i as u32);
        assert_eq!(ProgramError::from(*e), ProgramError::Custom(i as u32));
    }
}

#[test]
fn instruction_discriminators() {
    assert_eq!(FundraiserInstructions::try_from(&0u8), Ok(FundraiserInstructions::Initialize));
    assert_eq!(FundraiserInstructions::try_from(&1u8), Ok(FundraiserInstructions::Contribute));
    assert_eq!(FundraiserInstructions::try_from(&2u8), Ok(FundraiserInstructions::Checker));
    assert_eq!(FundraiserInstructions::try_from(&3u8), Ok(FundraiserInstructions::Refund));
    assert_eq!(FundraiserInstructions::try_from(&4u8), Err(ProgramError::InvalidInstructionData));
    assert_eq!(FundraiserInstructions::try_from(&255u8), Err(ProgramError::InvalidInstructionData));
    for d in 0u8..4 {
        assert_eq!(FundraiserInstructions::try_from(&d).unwrap().discriminator(), d);
    }
    assert_eq!(decode_instruction(&[]), Err(ProgramError::InvalidInstructionData));
    assert_eq!(decode_instruction(&[3, 9, 9]), Ok(FundraiserInstructions::Refund));
    assert_eq!(decode_instruction(&[7]), Err(ProgramError::InvalidInstructionData));
}

#[test]
fn little_endian_round_trips() {
    for v in [0u64, 1, 255, 256, 0x0102_0304_0506_0708, u64::MAX] {
        assert_eq!(u64_to_le(v), v.to_le_bytes());
        assert_eq!(u64_from_le(v.to_le_bytes()), v);
        assert_eq!(read_u64_le(&v.to_le_bytes(), 0), v);
    }
    for v in [0i64, 1, -1, i64::MIN, i64::MAX, -86_400, 1_700_000_000] {
        assert_eq!(i64_to_le(v), v.to_le_bytes());
        assert_eq!(read_i64_le(&v.to_le_bytes(), 0), v);
    }
    let data = [9u8, 1, 0, 0, 0, 0, 0, 0, 0, 9];
    assert_eq!(read_u64_le(&data, 1), 1);
}

#[test]
fn contributor_amount_round_trip() {
    let mut c = Contributor::from_account_info(&[0u8; 8]).unwrap();
    assert_eq!(c.amount(), 0);
    c.set_amount(123_456_789);
    assert_eq!(c.amount(), 123_456_789);
    assert_eq!(c.amount, 123_456_789u64.to_le_bytes());
    let read = Contributor::from_account_info(&c.amount).unwrap();
    assert_eq!(read, c);
    assert_eq!(Contributor::from_account_info(&[0u8; 9]), Err(ProgramError::InvalidAccountData));
    assert_eq!(Contributor::from_account_info(&[]), Err(ProgramError::InvalidAccountData));
}

#[test]
fn fundraiser_layout_round_trip() {
    let mut data = vec![0u8; 90];
    for (i, b) in data.iter_mut().enumerate() {
        *b = (i * 7 + 3) as u8;
    }
    let f = Fundraiser::from_account_info(&data).unwrap();
    assert_eq!(f.to_account_data(), data);
    assert_eq!(f.amount_to_raise(), u64::from_le_bytes(data[64..72].try_into().unwrap()));
    assert_eq!(f.current_amount(), u64::from_le_bytes(data[72..80].try_into().unwrap()));
    assert_eq!(f.time_started(), i64::from_le_bytes(data[80..88].try_into().unwrap()));
    assert_eq!(f.duration(), data[88]);
    assert_eq!(f.bump, data[89]);
    let mut g = f;
    g.set_current_amount(42);
    g.set_time_started(-5);
    let again = Fundraiser::from_account_info(&g.to_account_data()).unwrap();
    assert_eq!(again, g);
    assert_eq!(again.current_amount(), 42);
    assert_eq!(again.time_started(), -5);
    assert_eq!(Fundraiser::from_account_info(&data[..89]), Err(ProgramError::InvalidAccountData));
}

#[test]
fn amount_rules() {
    assert_eq!(checked_pow10(0), Some(1));
    assert_eq!(checked_pow10(6), Some(1_000_000));
    assert_eq!(checked_pow10(19), Some(10_000_000_000_000_000_000));
    assert_eq!(checked_pow10(20), None);
    assert_eq!(min_amount_to_raise(6), Some(3_000_000));
    assert_eq!(min_amount_to_raise(0), Some(3));
    assert_eq!(min_amount_to_raise(19), None);
    assert_eq!(min_contribution(9), Some(1_000_000_000));
    assert_eq!(min_contribution(20), None);
    assert_eq!(max_contribution(30_000_000), Some(3_000_000));
    assert_eq!(max_contribution(99), Some(9));
    assert_eq!(max_contribution(u64::MAX / 10 + 1), None);
    assert_eq!(check_amount_to_raise(u64::MAX, 19), Err(ProgramError::ArithmeticOverflow));
    assert_eq!(check_amount_to_raise(u64::MAX, 18), Ok(()));
}

#[test]
fn elapsed_days_counts_whole_days() {
    assert_eq!(elapsed_days(86_400 * 3 + 5, 0), 3);
    assert_eq!(elapsed_days(86_399, 0), 0);
    assert_eq!(elapsed_days(0, 86_399), 0);
    // A clock a day before the start gives a negative count.
    assert_eq!(elapsed_days(0, 86_400), -1);
    // The count is not reduced to a byte.
    assert_eq!(elapsed_days(86_400 * 256, 0), 256);
    assert_eq!(elapsed_days(86_400 * 300, 0), 300);
    // Extreme timestamps do not wrap.
    assert_eq!(elapsed_days(i64::MAX, i64::MIN), (u64::MAX / 86_400) as i64);
    assert_eq!(elapsed_days(i64::MIN, i64::MAX), -((u64::MAX / 86_400) as i64));
}

#[test]
fn initialize_header_checks() {
    let mut data = vec![1u8];
    data.extend_from_slice(&5_000_000u64.to_le_bytes());
    data.push(10);
    assert_eq!(check_min_accounts(5, INITIALIZE_MIN_ACCOUNTS), Err(ProgramError::NotEnoughAccountKeys));
    assert_eq!(check_min_accounts(6, INITIALIZE_MIN_ACCOUNTS), Ok(()));
    assert_eq!(check_min_accounts(9, INITIALIZE_MIN_ACCOUNTS), Ok(()));
    assert_eq!(parse_initialize(false, &data), Err(ProgramError::MissingRequiredSignature));
    assert_eq!(parse_initialize(true, &data[..9]), Err(ProgramError::InvalidInstructionData));
    let args = parse_initialize(true, &data).unwrap();
    assert_eq!((args.bump, args.amount_to_raise, args.duration), (1, 5_000_000, 10));
}

#[test]
fn close_lamports_overflow() {
    assert_eq!(close_account_lamports(1, u64::MAX), Err(ProgramError::ArithmeticOverflow));
    assert_eq!(close_account_lamports(0, u64::MAX), Ok(u64::MAX));
}

#[test]
fn derived_addresses_come_from_the_seeds() {
    let program = [7u8; 32];
    let maker = [1u8; 32];
    let a = fundraiser_address(&maker, 254, &program);
    let expected = pinocchio_pubkey::derive_address_const(&[&FUNDRAISER_SEED[..], &maker[..], &[254u8][..]], None, &program);
    assert_eq!(a, expected);
    assert_ne!(a, maker);
    assert_ne!(a, program);
    assert_ne!(a, fundraiser_address(&maker, 253, &program));
    let contributor = [2u8; 32];
    let c = contributor_address(&a, &contributor, 1, &program);
    let expected = pinocchio_pubkey::derive_address_const(
        &[&CONTRIBUTOR_SEED[..], &a[..], &contributor[..], &[1u8][..]],
        None,
        &program,
    );
    assert_eq!(c, expected);
    assert_ne!(c, a);
    let token = [6u8; 32];
    let mint = [3u8; 32];
    let ata = [5u8; 32];
    let v = vault_address(&a, &token, &mint, &ata);
    assert_eq!(v, pinocchio_pubkey::derive_address_const(&[&a[..], &token[..], &mint[..]], None, &ata));
    assert_ne!(v, a);
    assert!(same_address(&v, &v));
    assert!(!same_address(&v, &a));
    assert_eq!(&FUNDRAISER_SEED, b"fundraiser");
    assert_eq!(&CONTRIBUTOR_SEED, b"contributor");
}

#[test]
fn checker_rejects_a_campaign_of_another_mint() {
    let program = [7u8; 32];
    let maker = [1u8; 32];
    let fundraiser = fundraiser_address(&maker, 200, &program);
    let mut data = vec![0u8; 90];
    data[0..32].copy_from_slice(&maker);
    data[32..64].copy_from_slice(&[3u8; 32]);
    data[89] = 200;
    let keys = fundraiser::instructions::checker::CheckerKeys {
        maker,
        mint_to_raise: [4u8; 32],
        fundraiser,
        vault: [0u8; 32],
    };
    let ids = fundraiser::address::ProgramIds {
        program,
        token_program: [6u8; 32],
        associated_token_program: [5u8; 32],
    };
    assert_eq!(
        begin_check_contributions(true, &[200], &data, &keys, &ids).err(),
        Some(ProgramError::InvalidAccountData),
    );
}
