//! `initialize`: opens a campaign.
use vstd::prelude::*;
use crate::address::{derived_address, fundraiser_address, fundraiser_seeds, same_address};
use crate::error::{custom, FundraiserError, ProgramError};
use crate::le_bytes::{i64_bits, le_bytes, le_value, read_u64_le};
use crate::rules::{min_amount_to_raise, min_raise};
use crate::state::fundraiser::Fundraiser;

verus! {

/// Fewest accounts that `initialize` takes: maker, mint, campaign state,
/// vault, system program, token program (the associated token program may
/// follow).
pub const INITIALIZE_MIN_ACCOUNTS: usize = 6;

/// Bytes of the `initialize` payload: bump (1) | amount to raise (8) | duration (1).
pub const INITIALIZE_DATA_LEN: usize = 10;

/// The payload of `initialize`.
#[derive(Clone, Copy, Debug, PartialEq, Eq, Structural)]
pub struct InitializeArgs {
    /// Bump of the campaign's state address.
    pub bump: u8,
    /// The target amount, in base units of the mint.
    pub amount_to_raise: u64,
    /// Length of the campaign in days.
    pub duration: u8,
}

/// The first check of `initialize` that fails on these inputs, if any.
pub open spec fn initialize_header_error(maker_is_signer: bool, data: Seq<u8>) -> Option<
    ProgramError,
> {
    if !maker_is_signer {
        Some(ProgramError::MissingRequiredSignature)
    } else if data.len() < INITIALIZE_DATA_LEN {
        Some(ProgramError::InvalidInstructionData)
    } else {
        None
    }
}

/// The payload that `data` holds.
pub open spec fn initialize_args_of(data: Seq<u8>) -> InitializeArgs {
    InitializeArgs {
        bump: data[0],
        amount_to_raise: le_value(data.subrange(1, 9)) as u64,
        duration: data[9],
    }
}

/// Checks the maker's signature and decodes the payload.
pub fn parse_initialize(maker_is_signer: bool, data: &[u8]) -> (r: Result<
    InitializeArgs,
    ProgramError,
>)
    ensures
        match initialize_header_error(maker_is_signer, data@) {
            Some(e) => r == Err::<InitializeArgs, ProgramError>(e),
            None => r == Ok::<InitializeArgs, ProgramError>(initialize_args_of(data@)),
        },
{
    if !maker_is_signer {
        return Err(ProgramError::MissingRequiredSignature);
    }
    if data.len() < INITIALIZE_DATA_LEN {
        return Err(ProgramError::InvalidInstructionData);
    }
    let bump = data[0];
    let amount_to_raise = read_u64_le(data, 1);
    let duration = data[9];
    Ok(InitializeArgs { bump, amount_to_raise, duration })
}

/// What the target check of `initialize` answers: the target must exceed
/// `MIN_AMOUNT_TO_RAISE` whole tokens of the mint.
pub open spec fn amount_to_raise_check(amount_to_raise: u64, decimals: u8) -> Result<(), ProgramError> {
    match min_raise(decimals) {
        None => Err(ProgramError::ArithmeticOverflow),
        Some(min) => if amount_to_raise <= min {
            Err(custom(FundraiserError::InvalidAmount))
        } else {
            Ok(())
        },
    }
}

/// Checks that the target exceeds the minimum for a mint with `decimals`
/// decimals.
pub fn check_amount_to_raise(amount_to_raise: u64, decimals: u8) -> (r: Result<(), ProgramError>)
    ensures
        r == amount_to_raise_check(amount_to_raise, decimals),
{
    let min_required = match min_amount_to_raise(decimals) {
        Some(min) => min,
        None => return Err(ProgramError::ArithmeticOverflow),
    };
    if amount_to_raise <= min_required {
        return Err(ProgramError::from(FundraiserError::InvalidAmount));
    }
    Ok(())
}

/// Whether `fundraiser` is the state address that `maker` opens with `bump`.
/// `initialize` aborts where it is not.
pub fn is_campaign_address(
    fundraiser: &[u8; 32],
    maker: &[u8; 32],
    bump: u8,
    program_id: &[u8; 32],
) -> (matches: bool)
    ensures
        matches == (fundraiser@ == derived_address(fundraiser_seeds(maker@, bump), program_id@)),
{
    let expected = fundraiser_address(maker, bump, program_id);
    same_address(&expected, fundraiser)
}

/// The account data of a campaign that has just opened.
pub open spec fn opened_campaign_bytes(
    maker: Seq<u8>,
    mint: Seq<u8>,
    args: InitializeArgs,
    time_started: i64,
) -> Seq<u8> {
    maker + mint + le_bytes(args.amount_to_raise as nat, 8) + le_bytes(0, 8) + le_bytes(
        i64_bits(time_started),
        8,
    ) + seq![args.duration, args.bump]
}

/// Writes the state of a campaign that opens at `time_started`: its maker,
/// mint, target, a contributed total of zero, duration and bump.
pub fn open_campaign(
    state: &mut Fundraiser,
    maker: &[u8; 32],
    mint_to_raise: &[u8; 32],
    args: &InitializeArgs,
    time_started: i64,
)
    ensures
        final(state).account_bytes() == opened_campaign_bytes(
            maker@,
            mint_to_raise@,
            *args,
            time_started,
        ),
        final(state).raised() == 0,
        final(state).goal() == args.amount_to_raise,
{
    state.set_maker(maker);
    state.set_mint_to_raise(mint_to_raise);
    state.set_amount_to_raise(args.amount_to_raise);
    state.set_current_amount(0);
    state.set_time_started(time_started);
    state.set_duration(args.duration);
    state.bump = args.bump;
}

} // verus!
