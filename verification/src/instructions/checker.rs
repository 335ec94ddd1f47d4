//! `checker`: hands the raised tokens to the maker once the target is met,
//! and closes the campaign.
use vstd::prelude::*;
use crate::address::{
    derived_address,
    fundraiser_address,
    fundraiser_seeds,
    same_address,
    vault_address,
    vault_seeds,
    ProgramIds,
};
use crate::error::{custom, FundraiserError, ProgramError};
use crate::state::fundraiser::{stored_bump, stored_maker, stored_mint, Fundraiser};

verus! {

/// Number of accounts that `checker` takes: maker, mint, campaign state,
/// vault, maker's token account, token program, system program, associated
/// token program.
pub const CHECKER_ACCOUNTS: usize = 8;

/// The addresses of the accounts that `checker` checks.
#[derive(Clone, Copy, Debug, PartialEq, Eq)]
pub struct CheckerKeys {
    pub maker: [u8; 32],
    pub mint_to_raise: [u8; 32],
    pub fundraiser: [u8; 32],
    pub vault: [u8; 32],
}

/// What `checker` has established before it reads the vault's balance.
#[derive(Clone, Copy, Debug)]
pub struct CheckerSetup {
    /// Bump of the campaign's state address, with which it signs.
    pub bump: u8,
    /// The campaign's state as read from its account.
    pub fundraiser: Fundraiser,
}

/// The transfer that `checker` makes once the target is met.
#[derive(Clone, Copy, Debug, PartialEq, Eq, Structural)]
pub struct Claim {
    /// The amount to move from the vault to the maker: all of it.
    pub amount: u64,
    /// Whether the maker's token account has no data yet and must be created.
    pub create_maker_ata: bool,
}

/// The first account check of `checker` that fails on these inputs, if any.
pub open spec fn checker_setup_error(
    maker_is_signer: bool,
    data: Seq<u8>,
    fundraiser_data: Seq<u8>,
    keys: CheckerKeys,
    ids: ProgramIds,
) -> Option<ProgramError> {
    if !maker_is_signer {
        Some(ProgramError::MissingRequiredSignature)
    } else if data.len() == 0 {
        Some(ProgramError::InvalidInstructionData)
    } else if fundraiser_data.len() != Fundraiser::LEN {
        Some(ProgramError::InvalidAccountData)
    } else if keys.maker@ != stored_maker(fundraiser_data) {
        Some(ProgramError::InvalidAccountData)
    } else if keys.mint_to_raise@ != stored_mint(fundraiser_data) {
        Some(ProgramError::InvalidAccountData)
    } else if keys.fundraiser@ != derived_address(
        fundraiser_seeds(stored_maker(fundraiser_data), data[0]),
        ids.program@,
    ) {
        Some(ProgramError::InvalidAccountData)
    } else if data[0] != stored_bump(fundraiser_data) {
        Some(ProgramError::InvalidAccountData)
    } else if keys.vault@ != derived_address(
        vault_seeds(keys.fundraiser@, ids.token_program@, keys.mint_to_raise@),
        ids.associated_token_program@,
    ) {
        Some(custom(FundraiserError::InvalidVault))
    } else {
        None
    }
}

/// The account checks of `checker`: the maker's signature,
/// payload, the campaign's state, maker, mint, address and bump, and the
/// vault's address.
pub fn begin_check_contributions(
    maker_is_signer: bool,
    data: &[u8],
    fundraiser_data: &[u8],
    keys: &CheckerKeys,
    ids: &ProgramIds,
) -> (r: Result<CheckerSetup, ProgramError>)
    ensures
        match checker_setup_error(
            maker_is_signer,
            data@,
            fundraiser_data@,
            *keys,
            *ids,
        ) {
            Some(e) => r matches Err(e2) && e2 == e,
            None => r matches Ok(s) && s.bump == data@[0] && s.fundraiser.account_bytes()
                == fundraiser_data@,
        },
{
    if !maker_is_signer {
        return Err(ProgramError::MissingRequiredSignature);
    }
    if data.len() == 0 {
        return Err(ProgramError::InvalidInstructionData);
    }
    let bump = data[0];
    let fundraiser = Fundraiser::from_account_info(fundraiser_data)?;
    if !same_address(&keys.maker, &fundraiser.maker) {
        return Err(ProgramError::InvalidAccountData);
    }
    if !same_address(&keys.mint_to_raise, &fundraiser.mint_to_raise) {
        return Err(ProgramError::InvalidAccountData);
    }
    let expected_fundraiser = fundraiser_address(&fundraiser.maker, bump, &ids.program);
    if !same_address(&expected_fundraiser, &keys.fundraiser) {
        return Err(ProgramError::InvalidAccountData);
    }
    if bump != fundraiser.bump {
        return Err(ProgramError::InvalidAccountData);
    }
    let expected_vault = vault_address(
        &keys.fundraiser,
        &ids.token_program,
        &keys.mint_to_raise,
        &ids.associated_token_program,
    );
    if !same_address(&expected_vault, &keys.vault) {
        return Err(ProgramError::from(FundraiserError::InvalidVault));
    }
    Ok(CheckerSetup { bump, fundraiser })
}

/// What the target check of `checker` answers: the vault must hold at least
/// the target.
pub open spec fn claim_check(goal: nat, vault_amount: u64) -> Result<(), ProgramError> {
    if vault_amount < goal {
        Err(custom(FundraiserError::TargetNotMet))
    } else {
        Ok(())
    }
}

/// Checks that the vault holds at least the target; the claim then moves the
/// whole vault balance to the maker, creating the maker's token account where
/// it has no data.
pub fn check_target_met(setup: &CheckerSetup, vault_amount: u64, maker_ata_data_len: usize) -> (r:
    Result<Claim, ProgramError>)
    ensures
        claim_check(setup.fundraiser.goal(), vault_amount) matches Err(e) ==> r
            == Err::<Claim, ProgramError>(e),
        claim_check(setup.fundraiser.goal(), vault_amount) is Ok ==> r == Ok::<
            Claim,
            ProgramError,
        >(Claim { amount: vault_amount, create_maker_ata: maker_ata_data_len == 0 }),
{
    if vault_amount < setup.fundraiser.amount_to_raise() {
        return Err(ProgramError::from(FundraiserError::TargetNotMet));
    }
    Ok(Claim { amount: vault_amount, create_maker_ata: maker_ata_data_len == 0 })
}

} // verus!
