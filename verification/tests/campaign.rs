use fundraiser::address::{contributor_address, fundraiser_address, vault_address, ProgramIds};
use fundraiser::error::{FundraiserError, ProgramError};
use fundraiser::instructions::checker::{begin_check_contributions, check_target_met, CheckerKeys, CHECKER_ACCOUNTS};
use fundraiser::instructions::{check_exact_accounts, close_account_lamports};
use fundraiser::instructions::contribute::{
    begin_contribute,
    check_contribution_size,
    check_contribution_window,
    record_contribution,
    ContributeKeys,
    CONTRIBUTE_ACCOUNTS,
};
use fundraiser::instructions::initialize::{
    check_amount_to_raise,
    is_campaign_address,
    open_campaign,
    parse_initialize,
    INITIALIZE_MIN_ACCOUNTS,
};
use fundraiser::instructions::check_min_accounts;
use fundraiser::instructions::refund::{begin_refund, check_refund, record_refund, RefundKeys, REFUND_ACCOUNTS};
use fundraiser::state::contributor::Contributor;
use fundraiser::state::fundraiser::Fundraiser;

const DAY: i64 = 86_400;
const START: i64 = 1_700_000_000;

fn ids() -> ProgramIds {
    ProgramIds {
        program: [7u8; 32],
        token_program: [6u8; 32],
        associated_token_program: [5u8; 32],
    }
}

fn maker() -> [u8; 32] {
    [1u8; 32]
}

fn contributor() -> [u8; 32] {
    [2u8; 32]
}

fn mint() -> [u8; 32] {
    [3u8; 32]
}

/// A 6-decimal mint's account data.
fn mint_data() -> Vec<u8> {
    let mut data = vec![0u8; 82];
    data[44] = 6;
    data
}

fn initialize_data(bump: u8, amount_to_raise: u64, duration: u8) -> Vec<u8> {
    let mut data = vec![bump];
    data.extend_from_slice(&amount_to_raise.to_le_bytes());
    data.push(duration);
    data
}

fn contribute_data(bump_contributor: u8, bump_fundraiser: u8, amount: u64) -> Vec<u8> {
    let mut data = vec![bump_contributor, bump_fundraiser];
    data.extend_from_slice(&amount.to_le_bytes());
    data
}

struct Campaign {
    fundraiser: [u8; 32],
    bump: u8,
    data: Vec<u8>,
    contributor_account: [u8; 32],
    contributor_bump: u8,
    contributor_data: Vec<u8>,
    vault: [u8; 32],
}

/// Opens a campaign through `initialize`'s steps, as the program does.
fn setup_campaign(amount_to_raise: u64, duration: u8) -> Campaign {
    let bump = 254;
    let fundraiser = fundraiser_address(&maker(), bump, &ids().program);
    check_min_accounts(7, INITIALIZE_MIN_ACCOUNTS).unwrap();
    let args = parse_initialize(true, &initialize_data(bump, amount_to_raise, duration)).unwrap();
    check_amount_to_raise(args.amount_to_raise, 6).unwrap();
    assert!(is_campaign_address(&fundraiser, &maker(), bump, &ids().program));
    let mut state = Fundraiser::from_account_info(&[0u8; 90]).unwrap();
    open_campaign(&mut state, &maker(), &mint(), &args, START);
    let contributor_bump = 253;
    let contributor_account = contributor_address(&fundraiser, &contributor(), contributor_bump, &ids().program);
    let vault = vault_address(&fundraiser, &ids().token_program, &mint(), &ids().associated_token_program);
    Campaign {
        fundraiser,
        bump,
        data: state.to_account_data(),
        contributor_account,
        contributor_bump,
        contributor_data: Vec::new(),
        vault,
    }
}

fn contribute_keys(c: &Campaign) -> ContributeKeys {
    ContributeKeys {
        contributor: contributor(),
        mint_to_raise: mint(),
        fundraiser: c.fundraiser,
        contributor_account: c.contributor_account,
    }
}

/// Runs `contribute`'s steps at time `now`; on success the campaign's and the
/// contributor's account data are updated.
fn contribute(c: &mut Campaign, amount: u64, now: i64) -> Result<(), ProgramError> {
    let data = contribute_data(c.contributor_bump, c.bump, amount);
    let setup = begin_contribute(
        true,
        &data,
        &c.data,
        &contribute_keys(c),
        c.contributor_data.len(),
        &ids().program,
    )?;
    if setup.create_contributor_account {
        c.contributor_data = vec![0u8; Contributor::LEN];
    }
    let limits = check_contribution_size(&setup, &c.contributor_data, &mint_data())?;
    let new_total = check_contribution_window(&setup, &limits, now)?;
    let mut state = setup.fundraiser;
    let mut record = Contributor::from_account_info(&c.contributor_data)?;
    record_contribution(&mut state, &mut record, setup.args.amount, new_total);
    c.data = state.to_account_data();
    c.contributor_data = record.amount.to_vec();
    Ok(())
}

fn current_amount(data: &[u8]) -> u64 {
    u64::from_le_bytes(data[72..80].try_into().unwrap())
}

fn amount_to_raise(data: &[u8]) -> u64 {
    u64::from_le_bytes(data[64..72].try_into().unwrap())
}

fn contributor_amount(data: &[u8]) -> u64 {
    u64::from_le_bytes(data[0..8].try_into().unwrap())
}

#[test]
fn test_initialize() {
    let c = setup_campaign(30_000_000, 30);
    assert_eq!(c.data.len(), 90);
    assert_eq!(amount_to_raise(&c.data), 30_000_000);
    assert_eq!(current_amount(&c.data), 0);
    assert_eq!(&c.data[0..32], &maker());
    assert_eq!(&c.data[32..64], &mint());
    assert_eq!(i64::from_le_bytes(c.data[80..88].try_into().unwrap()), START);
    assert_eq!(c.data[88], 30);
    assert_eq!(c.data[89], c.bump);
}

#[test]
fn test_initialize_rejects_amount_below_minimum() {
    let args = parse_initialize(true, &initialize_data(254, 2_000_000, 30)).unwrap();
    assert_eq!(args.amount_to_raise, 2_000_000);
    assert_eq!(
        check_amount_to_raise(args.amount_to_raise, 6),
        Err(ProgramError::Custom(0)),
    );
    // Exactly the minimum is rejected too; one more is accepted.
    assert_eq!(check_amount_to_raise(3_000_000, 6), Err(ProgramError::Custom(0)));
    assert_eq!(check_amount_to_raise(3_000_001, 6), Ok(()));
}

#[test]
fn test_contribute_once() {
    let mut c = setup_campaign(30_000_000, 30);
    contribute(&mut c, 1_500_000, START + DAY).unwrap();
    assert_eq!(contributor_amount(&c.contributor_data), 1_500_000);
    assert_eq!(current_amount(&c.data), 1_500_000);
}

#[test]
fn test_contribute_twice_accumulates() {
    let mut c = setup_campaign(30_000_000, 30);
    let first_amount = 1_500_000_u64;
    let second_amount = 1_000_001_u64;
    contribute(&mut c, first_amount, START + DAY).unwrap();
    contribute(&mut c, second_amount, START + 2 * DAY).unwrap();
    let total = first_amount + second_amount;
    assert_eq!(contributor_amount(&c.contributor_data), total);
    assert_eq!(current_amount(&c.data), total);
}

#[test]
fn test_contribute_rejects_too_small() {
    let mut c = setup_campaign(30_000_000, 30);
    let result = contribute(&mut c, 1_000_000, START + DAY);
    assert_eq!(result, Err(ProgramError::Custom(1)));
    assert_eq!(current_amount(&c.data), 0);
}

#[test]
fn test_contribute_rejects_exceeding_10_percent_cap() {
    let mut c = setup_campaign(30_000_000, 30);
    let result = contribute(&mut c, 4_000_000, START + DAY);
    assert_eq!(result, Err(ProgramError::Custom(2)));
    // Exactly 10% is accepted.
    contribute(&mut c, 3_000_000, START + DAY).unwrap();
    assert_eq!(current_amount(&c.data), 3_000_000);
}

#[test]
fn test_contribute_rejects_cumulative_cap_exceeded() {
    let mut c = setup_campaign(30_000_000, 30);
    contribute(&mut c, 2_000_000, START + DAY).unwrap();
    let result = contribute(&mut c, 2_000_000, START + DAY);
    assert_eq!(result, Err(ProgramError::Custom(3)));
    assert_eq!(current_amount(&c.data), 2_000_000);
    assert_eq!(contributor_amount(&c.contributor_data), 2_000_000);
}

#[test]
fn contribute_rejects_after_the_campaign_ends() {
    let mut c = setup_campaign(30_000_000, 30);
    assert_eq!(contribute(&mut c, 2_000_000, START + 30 * DAY), Err(ProgramError::Custom(4)));
    // One second before the 30th day has passed it is still accepted.
    contribute(&mut c, 2_000_000, START + 30 * DAY - 1).unwrap();
}

#[test]
fn contribute_stays_closed_long_after_the_end() {
    let mut c = setup_campaign(30_000_000, 30);
    assert_eq!(contribute(&mut c, 1_500_000, START + 256 * DAY), Err(ProgramError::Custom(4)));
    assert_eq!(contribute(&mut c, 1_500_000, START + 1000 * DAY), Err(ProgramError::Custom(4)));
    assert_eq!(current_amount(&c.data), 0);
}

fn checker_keys(c: &Campaign) -> CheckerKeys {
    CheckerKeys { maker: maker(), mint_to_raise: mint(), fundraiser: c.fundraiser, vault: c.vault }
}

#[test]
fn test_checker_rejects_when_target_not_met() {
    let amount_to_raise = 10_000_000_u64;
    let c = setup_campaign(amount_to_raise, 30);
    let setup = begin_check_contributions(true, &[c.bump], &c.data, &checker_keys(&c), &ids()).unwrap();
    assert_eq!(check_target_met(&setup, 5_000_000, 165), Err(ProgramError::Custom(5)));
}

#[test]
fn checker_claims_the_whole_vault_once_the_target_is_met() {
    let c = setup_campaign(10_000_000, 30);
    let setup = begin_check_contributions(true, &[c.bump], &c.data, &checker_keys(&c), &ids()).unwrap();
    let claim = check_target_met(&setup, 12_000_000, 0).unwrap();
    assert_eq!(claim.amount, 12_000_000);
    assert!(claim.create_maker_ata);
    let claim = check_target_met(&setup, 10_000_000, 165).unwrap();
    assert_eq!(claim.amount, 10_000_000);
    assert!(!claim.create_maker_ata);
    assert_eq!(close_account_lamports(1_000, 5_000), Ok(6_000));
}

#[test]
fn checker_rejects_wrong_accounts() {
    let c = setup_campaign(10_000_000, 30);
    let keys = checker_keys(&c);
    assert_eq!(check_exact_accounts(7, CHECKER_ACCOUNTS), Err(ProgramError::NotEnoughAccountKeys));
    assert_eq!(check_exact_accounts(9, CHECKER_ACCOUNTS), Err(ProgramError::NotEnoughAccountKeys));
    assert_eq!(check_exact_accounts(8, CHECKER_ACCOUNTS), Ok(()));
    assert_eq!(
        begin_check_contributions(false, &[c.bump], &c.data, &keys, &ids()).err(),
        Some(ProgramError::MissingRequiredSignature),
    );
    assert_eq!(
        begin_check_contributions(true, &[], &c.data, &keys, &ids()).err(),
        Some(ProgramError::InvalidInstructionData),
    );
    assert_eq!(
        begin_check_contributions(true, &[c.bump], &c.data[..89], &keys, &ids()).err(),
        Some(ProgramError::InvalidAccountData),
    );
    let wrong_maker = CheckerKeys { maker: [9u8; 32], ..keys };
    assert_eq!(
        begin_check_contributions(true, &[c.bump], &c.data, &wrong_maker, &ids()).err(),
        Some(ProgramError::InvalidAccountData),
    );
    assert_eq!(
        begin_check_contributions(true, &[c.bump - 1], &c.data, &keys, &ids()).err(),
        Some(ProgramError::InvalidAccountData),
    );
    let wrong_vault = CheckerKeys { vault: [9u8; 32], ..keys };
    assert_eq!(
        begin_check_contributions(true, &[c.bump], &c.data, &wrong_vault, &ids()).err(),
        Some(ProgramError::from(FundraiserError::InvalidVault)),
    );
}

fn refund_keys(c: &Campaign) -> RefundKeys {
    RefundKeys {
        contributor: contributor(),
        maker: maker(),
        mint_to_raise: mint(),
        fundraiser: c.fundraiser,
        contributor_account: c.contributor_account,
        vault: c.vault,
    }
}

/// Runs `refund`'s steps at time `now` with the given vault balance; returns
/// the refunded amount.
fn refund(c: &mut Campaign, vault_amount: u64, now: i64) -> Result<u64, ProgramError> {
    let setup = begin_refund(true, &[c.bump, c.contributor_bump], &c.data, &refund_keys(c), &ids())?;
    let record = Contributor::from_account_info(&c.contributor_data)?;
    let refunded = check_refund(&setup, vault_amount, &record, now)?;
    let mut state = setup.fundraiser;
    record_refund(&mut state, refunded)?;
    c.data = state.to_account_data();
    Ok(refunded)
}

#[test]
fn refund_returns_the_deposit_after_a_failed_campaign() {
    let mut c = setup_campaign(30_000_000, 30);
    contribute(&mut c, 2_000_000, START + DAY).unwrap();
    let before = c.data.clone();
    assert_eq!(refund(&mut c, 2_000_000, START + 29 * DAY), Err(ProgramError::Custom(8)));
    assert_eq!(c.data, before);
    assert_eq!(refund(&mut c, 30_000_000, START + 31 * DAY), Err(ProgramError::Custom(6)));
    assert_eq!(refund(&mut c, 2_000_000, START + 30 * DAY), Ok(2_000_000));
    assert_eq!(current_amount(&c.data), 0);
}

#[test]
fn refund_stays_open_long_after_the_end() {
    let mut c = setup_campaign(30_000_000, 30);
    contribute(&mut c, 2_000_000, START + DAY).unwrap();
    assert_eq!(refund(&mut c, 2_000_000, START + 256 * DAY), Ok(2_000_000));
    assert_eq!(current_amount(&c.data), 0);
}

#[test]
fn refund_rejects_a_foreign_contributor_record() {
    let c = setup_campaign(30_000_000, 30);
    let keys = RefundKeys { contributor_account: [9u8; 32], ..refund_keys(&c) };
    assert_eq!(
        begin_refund(true, &[c.bump, c.contributor_bump], &c.data, &keys, &ids()).err(),
        Some(ProgramError::InvalidAccountData),
    );
    assert_eq!(
        begin_refund(true, &[c.bump], &c.data, &refund_keys(&c), &ids()).err(),
        Some(ProgramError::InvalidInstructionData),
    );
    assert_eq!(check_exact_accounts(8, REFUND_ACCOUNTS), Err(ProgramError::NotEnoughAccountKeys));
    assert_eq!(check_exact_accounts(9, REFUND_ACCOUNTS), Ok(()));
}

#[test]
fn contribute_rejects_wrong_accounts() {
    let c = setup_campaign(30_000_000, 30);
    let data = contribute_data(c.contributor_bump, c.bump, 2_000_000);
    let keys = contribute_keys(&c);
    let run = |signer: bool, data: &[u8], keys: &ContributeKeys| {
        begin_contribute(signer, data, &c.data, keys, 0, &ids().program).err()
    };
    assert_eq!(check_exact_accounts(9, CONTRIBUTE_ACCOUNTS), Err(ProgramError::NotEnoughAccountKeys));
    assert_eq!(run(false, &data, &keys), Some(ProgramError::MissingRequiredSignature));
    assert_eq!(run(true, &data[..9], &keys), Some(ProgramError::InvalidInstructionData));
    let wrong_mint = ContributeKeys { mint_to_raise: [9u8; 32], ..keys };
    assert_eq!(run(true, &data, &wrong_mint), Some(ProgramError::InvalidAccountData));
    let wrong_fundraiser = ContributeKeys { fundraiser: [9u8; 32], ..keys };
    assert_eq!(run(true, &data, &wrong_fundraiser), Some(ProgramError::InvalidAccountData));
    let setup = begin_contribute(true, &data, &c.data, &keys, 8, &ids().program).unwrap();
    assert!(!setup.create_contributor_account);
    assert_eq!(setup.args.amount, 2_000_000);
    assert_eq!(
        check_contribution_size(&setup, &[0u8; 7], &mint_data()).err(),
        Some(ProgramError::InvalidAccountData),
    );
}

#[test]
fn contribute_then_refund_restores_the_total() {
    let mut c = setup_campaign(30_000_000, 30);
    contribute(&mut c, 2_500_000, START + DAY).unwrap();
    let mut state = Fundraiser::from_account_info(&c.data).unwrap();
    assert_eq!(state.current_amount(), 2_500_000);
    assert_eq!(record_refund(&mut state, 2_500_000), Ok(()));
    assert_eq!(state.current_amount(), 0);
    assert_eq!(record_refund(&mut state, 1), Err(ProgramError::ArithmeticOverflow));
    assert_eq!(state.current_amount(), 0);
}
