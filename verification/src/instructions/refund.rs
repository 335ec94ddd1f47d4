//! `refund`: returns a contributor's deposit once the campaign has ended
//! without meeting its target, and closes the contributor record.
use vstd::prelude::*;
use crate::address::{
    contributor_address,
    contributor_seeds,
    derived_address,
    fundraiser_address,
    fundraiser_seeds,
    same_address,
    vault_address,
    vault_seeds,
    ProgramIds,
};
use crate::error::{custom, FundraiserError, ProgramError};
use crate::rules::{days_elapsed, elapsed_days};
use crate::state::contributor::Contributor;
use crate::state::fundraiser::{stored_bump, stored_maker, stored_mint, Fundraiser};

verus! {

/// Number of accounts that `refund` takes: contributor, maker, mint,
/// campaign state, contributor record, contributor's token account, vault,
/// token program, system program.
pub const REFUND_ACCOUNTS: usize = 9;

/// Bytes of the `refund` payload: campaign bump (1) | contributor record bump (1).
pub const REFUND_DATA_LEN: usize = 2;

/// The addresses of the accounts that `refund` checks.
#[derive(Clone, Copy, Debug, PartialEq, Eq)]
pub struct RefundKeys {
    pub contributor: [u8; 32],
    pub maker: [u8; 32],
    pub mint_to_raise: [u8; 32],
    pub fundraiser: [u8; 32],
    pub contributor_account: [u8; 32],
    pub vault: [u8; 32],
}

/// What `refund` has established before it reads the vault's balance.
#[derive(Clone, Copy, Debug)]
pub struct RefundSetup {
    /// Bump of the campaign's state address, with which it signs.
    pub bump_fundraiser: u8,
    /// The campaign's state as read from its account.
    pub fundraiser: Fundraiser,
}

/// The first account check of `refund` that fails on these inputs, if any.
pub open spec fn refund_setup_error(
    contributor_is_signer: bool,
    data: Seq<u8>,
    fundraiser_data: Seq<u8>,
    keys: RefundKeys,
    ids: ProgramIds,
) -> Option<ProgramError> {
    if !contributor_is_signer {
        Some(ProgramError::MissingRequiredSignature)
    } else if data.len() < REFUND_DATA_LEN {
        Some(ProgramError::InvalidInstructionData)
    } else if fundraiser_data.len() != Fundraiser::LEN {
        Some(ProgramError::InvalidAccountData)
    } else if keys.maker@ != stored_maker(fundraiser_data) {
        Some(ProgramError::InvalidAccountData)
    } else if keys.mint_to_raise@ != stored_mint(fundraiser_data) {
        Some(ProgramError::InvalidAccountData)
    } else if keys.fundraiser@ != derived_address(
        fundraiser_seeds(stored_maker(fundraiser_data), data[0]),
        ids.program@,
    ) {
        Some(ProgramError::InvalidAccountData)
    } else if data[0] != stored_bump(fundraiser_data) {
        Some(ProgramError::InvalidAccountData)
    } else if keys.contributor_account@ != derived_address(
        contributor_seeds(keys.fundraiser@, keys.contributor@, data[1]),
        ids.program@,
    ) {
        Some(ProgramError::InvalidAccountData)
    } else if keys.vault@ != derived_address(
        vault_seeds(keys.fundraiser@, ids.token_program@, keys.mint_to_raise@),
        ids.associated_token_program@,
    ) {
        Some(custom(FundraiserError::InvalidVault))
    } else {
        None
    }
}

/// The account checks of `refund`: the contributor's
/// signature, payload, the campaign's state, maker, mint, address and bump,
/// the contributor record's address, and the vault's address.
pub fn begin_refund(
    contributor_is_signer: bool,
    data: &[u8],
    fundraiser_data: &[u8],
    keys: &RefundKeys,
    ids: &ProgramIds,
) -> (r: Result<RefundSetup, ProgramError>)
    ensures
        match refund_setup_error(
            contributor_is_signer,
            data@,
            fundraiser_data@,
            *keys,
            *ids,
        ) {
            Some(e) => r matches Err(e2) && e2 == e,
            None => r matches Ok(s) && s.bump_fundraiser == data@[0]
                && s.fundraiser.account_bytes() == fundraiser_data@,
        },
{
    if !contributor_is_signer {
        return Err(ProgramError::MissingRequiredSignature);
    }
    if data.len() < REFUND_DATA_LEN {
        return Err(ProgramError::InvalidInstructionData);
    }
    let bump_fundraiser = data[0];
    let bump_contributor = data[1];
    let fundraiser = Fundraiser::from_account_info(fundraiser_data)?;
    if !same_address(&keys.maker, &fundraiser.maker) {
        return Err(ProgramError::InvalidAccountData);
    }
    if !same_address(&keys.mint_to_raise, &fundraiser.mint_to_raise) {
        return Err(ProgramError::InvalidAccountData);
    }
    let expected_fundraiser = fundraiser_address(&fundraiser.maker, bump_fundraiser, &ids.program);
    if !same_address(&expected_fundraiser, &keys.fundraiser) {
        return Err(ProgramError::InvalidAccountData);
    }
    if bump_fundraiser != fundraiser.bump {
        return Err(ProgramError::InvalidAccountData);
    }
    let expected_contributor = contributor_address(
        &keys.fundraiser,
        &keys.contributor,
        bump_contributor,
        &ids.program,
    );
    if !same_address(&expected_contributor, &keys.contributor_account) {
        return Err(ProgramError::InvalidAccountData);
    }
    let expected_vault = vault_address(
        &keys.fundraiser,
        &ids.token_program,
        &keys.mint_to_raise,
        &ids.associated_token_program,
    );
    if !same_address(&expected_vault, &keys.vault) {
        return Err(ProgramError::from(FundraiserError::InvalidVault));
    }
    Ok(RefundSetup { bump_fundraiser, fundraiser })
}

/// What the business checks of `refund` answer at time `now`: the campaign
/// must have run its full duration, and the vault must hold less than the
/// target.
///
/// Refunds open when the whole days elapsed reach the duration, the moment
/// `contribute` starts answering that the campaign has ended.
pub open spec fn refund_check(
    goal: nat,
    time_started: i64,
    duration: u8,
    vault_amount: u64,
    now: i64,
) -> Result<(), ProgramError> {
    if days_elapsed(now, time_started) < duration as int {
        Err(custom(FundraiserError::FundraiserNotEnded))
    } else if vault_amount >= goal {
        Err(custom(FundraiserError::TargetMet))
    } else {
        Ok(())
    }
}

/// Checks at time `now` that the campaign has ended and that its target was
/// not met; returns the amount to refund, the contributor's whole deposit.
pub fn check_refund(
    setup: &RefundSetup,
    vault_amount: u64,
    record: &Contributor,
    now: i64,
) -> (r: Result<u64, ProgramError>)
    ensures
        refund_check(
            setup.fundraiser.goal(),
            setup.fundraiser.time_started,
            setup.fundraiser.duration,
            vault_amount,
            now,
        ) matches Err(e) ==> r == Err::<u64, ProgramError>(e),
        refund_check(
            setup.fundraiser.goal(),
            setup.fundraiser.time_started,
            setup.fundraiser.duration,
            vault_amount,
            now,
        ) is Ok ==> r == Ok::<u64, ProgramError>(record.deposited() as u64),
{
    let elapsed = elapsed_days(now, setup.fundraiser.time_started());
    if elapsed < (setup.fundraiser.duration() as i64) {
        return Err(ProgramError::from(FundraiserError::FundraiserNotEnded));
    }
    if vault_amount >= setup.fundraiser.amount_to_raise() {
        return Err(ProgramError::from(FundraiserError::TargetMet));
    }
    Ok(record.amount())
}

/// Records a refunded deposit: the campaign's total shrinks by `deposited`,
/// which must not exceed it.
pub fn record_refund(fundraiser: &mut Fundraiser, deposited: u64) -> (r: Result<(), ProgramError>)
    ensures
        old(fundraiser).raised() < deposited ==> r == Err::<(), ProgramError>(
            ProgramError::ArithmeticOverflow,
        ) && *final(fundraiser) == *old(fundraiser),
        old(fundraiser).raised() >= deposited ==> r is Ok && final(fundraiser).raised()
            == old(fundraiser).raised() - deposited && *final(fundraiser) == (Fundraiser {
            current_amount: final(fundraiser).current_amount,
            ..*old(fundraiser)
        }),
{
    let current = fundraiser.current_amount();
    match current.checked_sub(deposited) {
        Some(remaining) => {
            fundraiser.set_current_amount(remaining);
            Ok(())
        },
        None => Err(ProgramError::ArithmeticOverflow),
    }
}

} // verus!
