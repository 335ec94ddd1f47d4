//! The program's instructions: decoding, and the checks and effects of each.
pub mod checker;
pub mod contribute;
pub mod initialize;
pub mod refund;

use vstd::prelude::*;
use crate::error::ProgramError;

verus! {

/// The instructions of the program, selected by the first byte of the
/// instruction data.
#[derive(Clone, Copy, Debug, PartialEq, Eq, Structural)]
pub enum FundraiserInstructions {
    /// Opens a campaign (discriminator `0`).
    Initialize,
    /// Deposits tokens into a running campaign (discriminator `1`).
    Contribute,
    /// Hands the raised tokens to the maker once the target is met (discriminator `2`).
    Checker,
    /// Returns a contributor's deposit after a failed campaign (discriminator `3`).
    Refund,
}

/// The instruction that discriminator `value` selects.
pub open spec fn instruction_for(value: u8) -> Result<FundraiserInstructions, ProgramError> {
    if value == 0 {
        Ok(FundraiserInstructions::Initialize)
    } else if value == 1 {
        Ok(FundraiserInstructions::Contribute)
    } else if value == 2 {
        Ok(FundraiserInstructions::Checker)
    } else if value == 3 {
        Ok(FundraiserInstructions::Refund)
    } else {
        Err(ProgramError::InvalidInstructionData)
    }
}

/// The discriminator of an instruction.
pub open spec fn discriminator_of(instruction: FundraiserInstructions) -> u8 {
    match instruction {
        FundraiserInstructions::Initialize => 0,
        FundraiserInstructions::Contribute => 1,
        FundraiserInstructions::Checker => 2,
        FundraiserInstructions::Refund => 3,
    }
}

impl<'a> TryFrom<&'a u8> for FundraiserInstructions {
    type Error = ProgramError;

    fn try_from(value: &'a u8) -> (r: Result<FundraiserInstructions, ProgramError>) {
        match *value {
            0 => Ok(FundraiserInstructions::Initialize),
            1 => Ok(FundraiserInstructions::Contribute),
            2 => Ok(FundraiserInstructions::Checker),
            3 => Ok(FundraiserInstructions::Refund),
            _ => Err(ProgramError::InvalidInstructionData),
        }
    }
}

impl<'a> vstd::std_specs::convert::TryFromSpecImpl<&'a u8> for FundraiserInstructions {
    open spec fn obeys_try_from_spec() -> bool {
        true
    }

    open spec fn try_from_spec(value: &'a u8) -> Result<FundraiserInstructions, ProgramError> {
        instruction_for(*value)
    }
}

impl FundraiserInstructions {
    /// The discriminator that selects this instruction.
    pub fn discriminator(self) -> (value: u8)
        ensures
            value == discriminator_of(self),
    {
        match self {
            FundraiserInstructions::Initialize => 0,
            FundraiserInstructions::Contribute => 1,
            FundraiserInstructions::Checker => 2,
            FundraiserInstructions::Refund => 3,
        }
    }
}

/// Selects the instruction from the first byte of `instruction_data`; the
/// bytes after it are the instruction's payload.
pub fn decode_instruction(instruction_data: &[u8]) -> (r: Result<FundraiserInstructions, ProgramError>)
    ensures
        instruction_data@.len() == 0 ==> r == Err::<FundraiserInstructions, ProgramError>(
            ProgramError::InvalidInstructionData,
        ),
        instruction_data@.len() > 0 ==> r == instruction_for(instruction_data@[0]),
{
    if instruction_data.len() == 0 {
        return Err(ProgramError::InvalidInstructionData);
    }
    FundraiserInstructions::try_from(&instruction_data[0])
}

/// Checks that an instruction received exactly `expected` accounts.
pub fn check_exact_accounts(num_accounts: usize, expected: usize) -> (r: Result<(), ProgramError>)
    ensures
        r == (if num_accounts == expected {
            Ok::<(), ProgramError>(())
        } else {
            Err(ProgramError::NotEnoughAccountKeys)
        }),
{
    if num_accounts != expected {
        return Err(ProgramError::NotEnoughAccountKeys);
    }
    Ok(())
}

/// Checks that an instruction received at least `min` accounts.
pub fn check_min_accounts(num_accounts: usize, min: usize) -> (r: Result<(), ProgramError>)
    ensures
        r == (if num_accounts >= min {
            Ok::<(), ProgramError>(())
        } else {
            Err(ProgramError::NotEnoughAccountKeys)
        }),
{
    if num_accounts < min {
        return Err(ProgramError::NotEnoughAccountKeys);
    }
    Ok(())
}

/// What closing an account answers: the destination's new balance, the
/// closed account's lamports added to its own, unless that overflows.
pub open spec fn close_transfer(account_lamports: u64, destination_lamports: u64) -> Result<
    u64,
    ProgramError,
> {
    if destination_lamports + account_lamports > u64::MAX {
        Err(ProgramError::ArithmeticOverflow)
    } else {
        Ok((destination_lamports + account_lamports) as u64)
    }
}

/// The destination's balance once a closed account's lamports have moved
/// to it; the closed account keeps none.
pub fn close_account_lamports(account_lamports: u64, destination_lamports: u64) -> (r: Result<
    u64,
    ProgramError,
>)
    ensures
        r == close_transfer(account_lamports, destination_lamports),
{
    match destination_lamports.checked_add(account_lamports) {
        Some(total) => Ok(total),
        None => Err(ProgramError::ArithmeticOverflow),
    }
}

/// Every discriminator selects at most one instruction, and each instruction
/// is selected by its own discriminator and no other.
pub proof fn lemma_discriminator_roundtrip(value: u8, instruction: FundraiserInstructions)
    ensures
        instruction_for(discriminator_of(instruction)) == Ok::<FundraiserInstructions, ProgramError>(
            instruction,
        ),
        instruction_for(value) is Ok <==> value < 4,
        instruction_for(value) matches Ok(i) ==> discriminator_of(i) == value,
{
}

} // verus!
