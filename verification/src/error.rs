use vstd::prelude::*;

verus! {

/// Errors specific to the fundraiser, reported as custom program errors.
#[derive(Clone, Copy, Debug, PartialEq, Eq, Structural)]
pub enum FundraiserError {
    /// The amount to raise does not meet the minimum requirement.
    InvalidAmount,
    /// The contribution is too small.
    ContributionTooSmall,
    /// The contribution is too big.
    ContributionTooBig,
    /// Maximum contributions reached.
    MaximumContributionsReached,
    /// The fundraiser has already ended.
    FundraiserEnded,
    /// The target has not been met.
    TargetNotMet,
    /// The target has been met.
    TargetMet,
    /// The vault is not the expected associated token account.
    InvalidVault,
    /// The fundraiser has not ended yet.
    FundraiserNotEnded,
}

/// The custom error code of each fundraiser error.
pub open spec fn error_code(e: FundraiserError) -> u32 {
    match e {
        FundraiserError::InvalidAmount => 0,
        FundraiserError::ContributionTooSmall => 1,
        FundraiserError::ContributionTooBig => 2,
        FundraiserError::MaximumContributionsReached => 3,
        FundraiserError::FundraiserEnded => 4,
        FundraiserError::TargetNotMet => 5,
        FundraiserError::TargetMet => 6,
        FundraiserError::InvalidVault => 7,
        FundraiserError::FundraiserNotEnded => 8,
    }
}

impl FundraiserError {
    /// The custom error code under which the runtime reports this error.
    pub fn code(self) -> (code: u32)
        ensures
            code == error_code(self),
    {
        match self {
            FundraiserError::InvalidAmount => 0,
            FundraiserError::ContributionTooSmall => 1,
            FundraiserError::ContributionTooBig => 2,
            FundraiserError::MaximumContributionsReached => 3,
            FundraiserError::FundraiserEnded => 4,
            FundraiserError::TargetNotMet => 5,
            FundraiserError::TargetMet => 6,
            FundraiserError::InvalidVault => 7,
            FundraiserError::FundraiserNotEnded => 8,
        }
    }
}

/// The errors that the program's own checks return.
///
/// The runtime's error type carries more variants; these are the ones that
/// the fundraiser's logic produces itself.
#[derive(Clone, Copy, Debug, PartialEq, Eq, Structural)]
pub enum ProgramError {
    /// A program-specific error with its code.
    Custom(u32),
    /// The instruction data could not be decoded.
    InvalidInstructionData,
    /// An account's address or data is not what the instruction expects.
    InvalidAccountData,
    /// Too few (or, for fixed account lists, a wrong number of) accounts.
    NotEnoughAccountKeys,
    /// A required signature is missing.
    MissingRequiredSignature,
    /// An arithmetic operation overflowed.
    ArithmeticOverflow,
}

impl From<FundraiserError> for ProgramError {
    fn from(e: FundraiserError) -> (r: ProgramError) {
        ProgramError::Custom(e.code())
    }
}

impl vstd::std_specs::convert::FromSpecImpl<FundraiserError> for ProgramError {
    open spec fn obeys_from_spec() -> bool {
        true
    }

    open spec fn from_spec(e: FundraiserError) -> ProgramError {
        ProgramError::Custom(error_code(e))
    }
}

/// The program error under which a fundraiser error is reported.
pub open spec fn custom(e: FundraiserError) -> ProgramError {
    ProgramError::Custom(error_code(e))
}

/// Distinct fundraiser errors are reported under distinct codes.
pub proof fn lemma_error_codes_distinct(a: FundraiserError, b: FundraiserError)
    ensures
        error_code(a) == error_code(b) <==> a == b,
{
}

} // verus!
