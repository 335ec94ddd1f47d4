//! `contribute`: deposits tokens into a running campaign.
use vstd::prelude::*;
use crate::address::{
    contributor_address,
    contributor_seeds,
    derived_address,
    fundraiser_address,
    fundraiser_seeds,
    same_address,
};
use crate::error::{custom, FundraiserError, ProgramError};
use crate::le_bytes::{le_value, read_u64_le};
use crate::rules::{
    contribution_cap,
    days_elapsed,
    elapsed_days,
    max_contribution,
    min_contribution,
    one_token,
};
use crate::state::contributor::Contributor;
use crate::state::fundraiser::{stored_maker, stored_mint, Fundraiser};

verus! {

/// Number of accounts that `contribute` takes: contributor, mint, campaign
/// state, contributor record, contributor's token account, vault, system
/// program, token program.
pub const CONTRIBUTE_ACCOUNTS: usize = 8;

/// Bytes of the `contribute` payload: contributor record bump (1) |
/// campaign bump (1) | amount (8).
pub const CONTRIBUTE_DATA_LEN: usize = 10;

/// Offset of the decimals in a mint's account data.
pub const MINT_DECIMALS_OFFSET: usize = 44;

/// The payload of `contribute`.
#[derive(Clone, Copy, Debug, PartialEq, Eq, Structural)]
pub struct ContributeArgs {
    /// Bump of the contributor record's address.
    pub bump_contributor: u8,
    /// Bump of the campaign state's address.
    pub bump_fundraiser: u8,
    /// The amount to deposit, in base units of the mint.
    pub amount: u64,
}

/// The addresses of the accounts that `contribute` checks.
#[derive(Clone, Copy, Debug, PartialEq, Eq)]
pub struct ContributeKeys {
    pub contributor: [u8; 32],
    pub mint_to_raise: [u8; 32],
    pub fundraiser: [u8; 32],
    pub contributor_account: [u8; 32],
}

/// What `contribute` has established before it creates the contributor
/// record.
#[derive(Clone, Copy, Debug)]
pub struct ContributeSetup {
    pub args: ContributeArgs,
    /// The campaign's state as read from its account.
    pub fundraiser: Fundraiser,
    /// Whether the contributor record has no data yet and must be created.
    pub create_contributor_account: bool,
}

/// What `contribute` knows once the deposit's size has been checked.
#[derive(Clone, Copy, Debug, PartialEq, Eq, Structural)]
pub struct ContributionLimits {
    /// What the contributor had deposited before.
    pub accumulated: u64,
    /// The most that one contributor may deposit to this campaign.
    pub max_single: u64,
}

/// The payload that `data` holds.
pub open spec fn contribute_args_of(data: Seq<u8>) -> ContributeArgs {
    ContributeArgs {
        bump_contributor: data[0],
        bump_fundraiser: data[1],
        amount: le_value(data.subrange(2, 10)) as u64,
    }
}

/// The first check of `contribute` before the contributor record exists
/// that fails on these inputs, if any.
pub open spec fn contribute_setup_error(
    contributor_is_signer: bool,
    data: Seq<u8>,
    fundraiser_data: Seq<u8>,
    keys: ContributeKeys,
    program_id: Seq<u8>,
) -> Option<ProgramError> {
    if !contributor_is_signer {
        Some(ProgramError::MissingRequiredSignature)
    } else if data.len() < CONTRIBUTE_DATA_LEN {
        Some(ProgramError::InvalidInstructionData)
    } else if fundraiser_data.len() != Fundraiser::LEN {
        Some(ProgramError::InvalidAccountData)
    } else if keys.fundraiser@ != derived_address(
        fundraiser_seeds(stored_maker(fundraiser_data), data[1]),
        program_id,
    ) {
        Some(ProgramError::InvalidAccountData)
    } else if keys.mint_to_raise@ != stored_mint(fundraiser_data) {
        Some(ProgramError::InvalidAccountData)
    } else if keys.contributor_account@ != derived_address(
        contributor_seeds(keys.fundraiser@, keys.contributor@, data[0]),
        program_id,
    ) {
        Some(ProgramError::InvalidAccountData)
    } else {
        None
    }
}

/// The checks of `contribute` up to the creation of the contributor record:
/// signature, payload, the campaign's state and address, the
/// mint, and the contributor record's address.
pub fn begin_contribute(
    contributor_is_signer: bool,
    data: &[u8],
    fundraiser_data: &[u8],
    keys: &ContributeKeys,
    contributor_account_data_len: usize,
    program_id: &[u8; 32],
) -> (r: Result<ContributeSetup, ProgramError>)
    ensures
        match contribute_setup_error(
            contributor_is_signer,
            data@,
            fundraiser_data@,
            *keys,
            program_id@,
        ) {
            Some(e) => r matches Err(e2) && e2 == e,
            None => r matches Ok(s) && s.args == contribute_args_of(data@)
                && s.fundraiser.account_bytes() == fundraiser_data@ && s.create_contributor_account
                == (contributor_account_data_len == 0),
        },
{
    if !contributor_is_signer {
        return Err(ProgramError::MissingRequiredSignature);
    }
    if data.len() < CONTRIBUTE_DATA_LEN {
        return Err(ProgramError::InvalidInstructionData);
    }
    let bump_contributor = data[0];
    let bump_fundraiser = data[1];
    let amount = read_u64_le(data, 2);
    let fundraiser = Fundraiser::from_account_info(fundraiser_data)?;
    let expected_fundraiser = fundraiser_address(&fundraiser.maker, bump_fundraiser, program_id);
    if !same_address(&expected_fundraiser, &keys.fundraiser) {
        return Err(ProgramError::InvalidAccountData);
    }
    if !same_address(&keys.mint_to_raise, &fundraiser.mint_to_raise) {
        return Err(ProgramError::InvalidAccountData);
    }
    let expected_contributor = contributor_address(
        &keys.fundraiser,
        &keys.contributor,
        bump_contributor,
        program_id,
    );
    if !same_address(&expected_contributor, &keys.contributor_account) {
        return Err(ProgramError::InvalidAccountData);
    }
    Ok(ContributeSetup {
        args: ContributeArgs { bump_contributor, bump_fundraiser, amount },
        fundraiser,
        create_contributor_account: contributor_account_data_len == 0,
    })
}

/// What the size checks of `contribute` answer: the contributor record must
/// hold a deposited total, the deposit must exceed one whole token, and it
/// must not exceed the per-contributor cap. On success, the total deposited
/// so far and the cap.
pub open spec fn contribution_size_check(
    amount: u64,
    goal: nat,
    contributor_data: Seq<u8>,
    decimals: u8,
) -> Result<(nat, nat), ProgramError> {
    if contributor_data.len() != Contributor::LEN {
        Err(ProgramError::InvalidAccountData)
    } else {
        match one_token(decimals) {
            None => Err(ProgramError::ArithmeticOverflow),
            Some(min) => if amount <= min {
                Err(custom(FundraiserError::ContributionTooSmall))
            } else {
                match contribution_cap(goal) {
                    None => Err(ProgramError::ArithmeticOverflow),
                    Some(cap) => if amount > cap {
                        Err(custom(FundraiserError::ContributionTooBig))
                    } else {
                        Ok((le_value(contributor_data), cap))
                    },
                }
            },
        }
    }
}

/// Reads the contributor record and the mint's decimals, and checks the
/// deposit against one whole token and against the per-contributor cap.
pub fn check_contribution_size(
    setup: &ContributeSetup,
    contributor_data: &[u8],
    mint_data: &[u8],
) -> (r: Result<ContributionLimits, ProgramError>)
    requires
        mint_data@.len() > MINT_DECIMALS_OFFSET,
    ensures
        r matches Ok(l) ==> contribution_size_check(
            setup.args.amount,
            setup.fundraiser.goal(),
            contributor_data@,
            mint_data@[MINT_DECIMALS_OFFSET as int],
        ) == Ok::<(nat, nat), ProgramError>((l.accumulated as nat, l.max_single as nat)),
        r matches Err(e) ==> contribution_size_check(
            setup.args.amount,
            setup.fundraiser.goal(),
            contributor_data@,
            mint_data@[MINT_DECIMALS_OFFSET as int],
        ) == Err::<(nat, nat), ProgramError>(e),
{
    let record = Contributor::from_account_info(contributor_data)?;
    let accumulated = record.amount();
    let decimals = mint_data[MINT_DECIMALS_OFFSET];
    let amount = setup.args.amount;
    let min = match min_contribution(decimals) {
        Some(min) => min,
        None => return Err(ProgramError::ArithmeticOverflow),
    };
    if amount <= min {
        return Err(ProgramError::from(FundraiserError::ContributionTooSmall));
    }
    let max_single = match max_contribution(setup.fundraiser.amount_to_raise()) {
        Some(max) => max,
        None => return Err(ProgramError::ArithmeticOverflow),
    };
    if amount > max_single {
        return Err(ProgramError::from(FundraiserError::ContributionTooBig));
    }
    Ok(ContributionLimits { accumulated, max_single })
}

/// What the remaining checks of `contribute` answer at time `now`: the
/// campaign must still run, and the contributor's new total must stay within
/// the cap. On success, the new total.
pub open spec fn contribution_window_check(
    amount: u64,
    accumulated: nat,
    cap: nat,
    time_started: i64,
    duration: u8,
    now: i64,
) -> Result<nat, ProgramError> {
    if duration as int <= days_elapsed(now, time_started) {
        Err(custom(FundraiserError::FundraiserEnded))
    } else if accumulated + amount > u64::MAX {
        Err(ProgramError::ArithmeticOverflow)
    } else if accumulated > cap || accumulated + amount > cap {
        Err(custom(FundraiserError::MaximumContributionsReached))
    } else {
        Ok((accumulated + amount) as nat)
    }
}

/// Checks at time `now` that the campaign still runs and that the deposit
/// keeps the contributor within the cap; returns the contributor's new total.
pub fn check_contribution_window(
    setup: &ContributeSetup,
    limits: &ContributionLimits,
    now: i64,
) -> (r: Result<u64, ProgramError>)
    ensures
        r matches Ok(total) ==> contribution_window_check(
            setup.args.amount,
            limits.accumulated as nat,
            limits.max_single as nat,
            setup.fundraiser.time_started,
            setup.fundraiser.duration,
            now,
        ) == Ok::<nat, ProgramError>(total as nat),
        r matches Err(e) ==> contribution_window_check(
            setup.args.amount,
            limits.accumulated as nat,
            limits.max_single as nat,
            setup.fundraiser.time_started,
            setup.fundraiser.duration,
            now,
        ) == Err::<nat, ProgramError>(e),
{
    let elapsed = elapsed_days(now, setup.fundraiser.time_started());
    if (setup.fundraiser.duration() as i64) <= elapsed {
        return Err(ProgramError::from(FundraiserError::FundraiserEnded));
    }
    let new_total = match limits.accumulated.checked_add(setup.args.amount) {
        Some(total) => total,
        None => return Err(ProgramError::ArithmeticOverflow),
    };
    if limits.accumulated > limits.max_single || new_total > limits.max_single {
        return Err(ProgramError::from(FundraiserError::MaximumContributionsReached));
    }
    Ok(new_total)
}

/// `a + b` reduced modulo `2^64`, as unchecked 64-bit addition in the
/// program's release build computes it.
pub open spec fn add_wrapping(a: nat, b: nat) -> nat {
    (a + b) % 0x1_0000_0000_0000_0000
}

/// Records a transferred deposit: the campaign's total grows by `amount`
/// and the contributor record holds `new_total`.
///
/// The campaign's total is added without a check, as the program does; it
/// counts tokens held by the vault, so it cannot exceed the mint's supply.
pub fn record_contribution(
    fundraiser: &mut Fundraiser,
    contributor: &mut Contributor,
    amount: u64,
    new_total: u64,
)
    ensures
        final(fundraiser).raised() == add_wrapping(old(fundraiser).raised(), amount as nat),
        *final(fundraiser) == (Fundraiser {
            current_amount: final(fundraiser).current_amount,
            ..*old(fundraiser)
        }),
        final(contributor).deposited() == new_total,
{
    let current = fundraiser.current_amount();
    let updated: u64 = if current > u64::MAX - amount {
        current - (u64::MAX - amount) - 1
    } else {
        current + amount
    };
    fundraiser.set_current_amount(updated);
    contributor.set_amount(new_total);
    proof {
        crate::state::contributor::lemma_amount_after_set_amount(new_total);
    }
}

} // verus!
