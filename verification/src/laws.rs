//! Properties that relate the instructions to each other.
use vstd::prelude::*;
use crate::error::{custom, FundraiserError, ProgramError};
use crate::address::{
    contributor_seeds,
    derived_address,
    fundraiser_seeds,
    vault_seeds,
    ProgramIds,
};
use crate::instructions::checker::{checker_setup_error, claim_check, CheckerKeys};
use crate::instructions::close_transfer;
use crate::instructions::contribute::{
    add_wrapping,
    contribution_size_check,
    contribution_window_check,
    contribute_args_of,
    contribute_setup_error,
    ContributeKeys,
};
use crate::instructions::initialize::{
    amount_to_raise_check,
    initialize_args_of,
    opened_campaign_bytes,
    InitializeArgs,
};
use crate::instructions::refund::{refund_check, refund_setup_error, RefundKeys};
use crate::le_bytes::{
    i64_bits,
    le_bytes,
    le_value,
    lemma_i64_bits_roundtrip,
    lemma_le_bytes_len,
    lemma_le_value_of_bytes,
    lemma_pow256_facts,
};
use vstd::arithmetic::div_mod::lemma_div_is_ordered;
use crate::rules::{contribution_cap, days_elapsed, pow10};
use crate::state::fundraiser::{
    stored_amount_to_raise,
    stored_bump,
    stored_current_amount,
    stored_duration,
    stored_maker,
    stored_mint,
    stored_time_started,
};

verus! {

/// A deposit that passes both checks of `contribute` exceeds one whole token,
/// is made while the campaign runs, and leaves the contributor's total (the
/// previous total plus the deposit) within 10% of the target.
pub proof fn lemma_accepted_contribution_within_cap(
    amount: u64,
    goal: nat,
    contributor_data: Seq<u8>,
    decimals: u8,
    time_started: i64,
    duration: u8,
    now: i64,
    accumulated: nat,
    cap: nat,
    total: nat,
)
    requires
        contribution_size_check(amount, goal, contributor_data, decimals) == Ok::<
            (nat, nat),
            ProgramError,
        >((accumulated, cap)),
        contribution_window_check(amount, accumulated, cap, time_started, duration, now) == Ok::<
            nat,
            ProgramError,
        >(total),
    ensures
        amount > pow10(decimals as nat),
        accumulated == le_value(contributor_data),
        contribution_cap(goal) == Some(cap),
        cap == goal * 10 / 100,
        total == accumulated + amount,
        total <= cap,
        days_elapsed(now, time_started) < duration as int,
{
}

/// The maker's claim and a contributor's refund never both pass: the claim
/// needs the vault to hold at least the target, the refund needs it to hold
/// less. Once the campaign has run its duration, exactly one of them passes.
pub proof fn lemma_claim_and_refund_exclusive(
    goal: nat,
    time_started: i64,
    duration: u8,
    vault_amount: u64,
    now: i64,
)
    ensures
        !(claim_check(goal, vault_amount) is Ok && refund_check(
            goal,
            time_started,
            duration,
            vault_amount,
            now,
        ) is Ok),
        days_elapsed(now, time_started) >= duration as int ==> (claim_check(goal, vault_amount) is Ok
            <==> !(refund_check(goal, time_started, duration, vault_amount, now) is Ok)),
{
}

/// At any moment, either contributions are still accepted or refunds may be
/// claimed, never both: a deposit that passes the time check of `contribute`
/// is refused by `refund` as too early, and a refund that passes is made when
/// `contribute` answers that the campaign has ended.
pub proof fn lemma_contribution_and_refund_windows_exclusive(
    amount: u64,
    accumulated: nat,
    cap: nat,
    goal: nat,
    time_started: i64,
    duration: u8,
    vault_amount: u64,
    now: i64,
)
    ensures
        contribution_window_check(amount, accumulated, cap, time_started, duration, now) is Ok
            ==> refund_check(goal, time_started, duration, vault_amount, now) == Err::<
            (),
            ProgramError,
        >(custom(FundraiserError::FundraiserNotEnded)),
        refund_check(goal, time_started, duration, vault_amount, now) is Ok
            ==> contribution_window_check(amount, accumulated, cap, time_started, duration, now)
            == Err::<nat, ProgramError>(custom(FundraiserError::FundraiserEnded)),
{
}

/// Once a campaign has ended it stays ended: at any later time `contribute`
/// still answers that the campaign has ended, however long after its end.
pub proof fn lemma_ended_campaign_stays_ended(
    amount: u64,
    accumulated: nat,
    cap: nat,
    time_started: i64,
    duration: u8,
    now: i64,
    later: i64,
)
    requires
        days_elapsed(now, time_started) >= duration as int,
        now <= later,
    ensures
        days_elapsed(later, time_started) >= days_elapsed(now, time_started),
        contribution_window_check(amount, accumulated, cap, time_started, duration, later)
            == Err::<nat, ProgramError>(custom(FundraiserError::FundraiserEnded)),
{
    let a = now - time_started;
    let b = later - time_started;
    if a >= 0 {
        lemma_div_is_ordered(a, b, 86400);
    } else if b >= 0 {
        lemma_div_is_ordered(0, -a, 86400);
        lemma_div_is_ordered(0, b, 86400);
    } else {
        lemma_div_is_ordered(-b, -a, 86400);
    }
}

/// Refunding a deposit after recording it gives the campaign's total back,
/// where recording it did not overflow.
pub proof fn lemma_refund_undoes_contribution(raised: u64, amount: u64)
    requires
        raised + amount <= u64::MAX,
    ensures
        add_wrapping(raised as nat, amount as nat) >= amount,
        add_wrapping(raised as nat, amount as nat) - amount == raised,
{
    assert((raised + amount) % 0x1_0000_0000_0000_0000 == raised + amount);
}

/// Closing an account moves all its lamports to the destination; none are
/// created or lost.
pub proof fn lemma_close_conserves_lamports(account_lamports: u64, destination_lamports: u64)
    ensures
        close_transfer(account_lamports, destination_lamports) matches Ok(total) ==> total
            == destination_lamports + account_lamports,
        close_transfer(account_lamports, destination_lamports) is Err
            <==> destination_lamports + account_lamports > u64::MAX,
{
}

/// Reading the account data of a campaign that has just opened gives back
/// what `initialize` wrote: its maker, mint, target, a total of zero, its
/// opening time, duration and bump.
pub proof fn lemma_opened_campaign_reads_back(
    maker: Seq<u8>,
    mint: Seq<u8>,
    args: InitializeArgs,
    time_started: i64,
)
    requires
        maker.len() == 32,
        mint.len() == 32,
    ensures
        ({
            let data = opened_campaign_bytes(maker, mint, args, time_started);
            &&& data.len() == 90
            &&& stored_maker(data) == maker
            &&& stored_mint(data) == mint
            &&& stored_amount_to_raise(data) == args.amount_to_raise
            &&& stored_current_amount(data) == 0
            &&& stored_time_started(data) == time_started
            &&& stored_duration(data) == args.duration
            &&& stored_bump(data) == args.bump
        }),
{
    let data = opened_campaign_bytes(maker, mint, args, time_started);
    lemma_le_bytes_len(args.amount_to_raise as nat, 8);
    lemma_le_bytes_len(0, 8);
    lemma_le_bytes_len(i64_bits(time_started), 8);
    lemma_pow256_facts();
    lemma_le_value_of_bytes(args.amount_to_raise as nat, 8);
    lemma_le_value_of_bytes(0, 8);
    lemma_i64_bits_roundtrip(time_started);
    lemma_le_value_of_bytes(i64_bits(time_started), 8);
    assert(stored_maker(data) =~= maker);
    assert(stored_mint(data) =~= mint);
    assert(data.subrange(64, 72) =~= le_bytes(args.amount_to_raise as nat, 8));
    assert(data.subrange(72, 80) =~= le_bytes(0, 8));
    assert(data.subrange(80, 88) =~= le_bytes(i64_bits(time_started), 8));
}

/// The deposit read from a `contribute` payload is the full 64-bit
/// little-endian number in bytes 2..10, whatever the two bumps before it.
pub proof fn lemma_contribute_payload_amount(bump_contributor: u8, bump_fundraiser: u8, amount: u64)
    ensures
        ({
            let args = contribute_args_of(
                seq![bump_contributor, bump_fundraiser] + le_bytes(amount as nat, 8),
            );
            &&& args.amount == amount
            &&& args.bump_contributor == bump_contributor
            &&& args.bump_fundraiser == bump_fundraiser
        }),
{
    let enc = le_bytes(amount as nat, 8);
    let data = seq![bump_contributor, bump_fundraiser] + enc;
    lemma_le_bytes_len(amount as nat, 8);
    lemma_pow256_facts();
    lemma_le_value_of_bytes(amount as nat, 8);
    assert(data.subrange(2, 10) =~= enc);
}

/// The target read from an `initialize` payload is the full 64-bit
/// little-endian number in bytes 1..9, between the bump and the duration.
pub proof fn lemma_initialize_payload_target(bump: u8, amount_to_raise: u64, duration: u8)
    ensures
        initialize_args_of(seq![bump] + le_bytes(amount_to_raise as nat, 8) + seq![duration])
            == (InitializeArgs { bump, amount_to_raise, duration }),
{
    let enc = le_bytes(amount_to_raise as nat, 8);
    let data = seq![bump] + enc + seq![duration];
    lemma_le_bytes_len(amount_to_raise as nat, 8);
    lemma_pow256_facts();
    lemma_le_value_of_bytes(amount_to_raise as nat, 8);
    assert(data.subrange(1, 9) =~= enc);
}

/// `checker` accepts exactly the accounts of the campaign whose data it
/// reads: a signed request passes the account checks if and only if the
/// maker and mint are the ones recorded in bytes 0..32 and 32..64, the
/// campaign address is derived from that maker and the payload's bump, that
/// bump is the one recorded in byte 89, and the vault is the campaign's
/// associated token account for the mint. A wrong maker, mint, campaign
/// address or bump is answered `InvalidAccountData`; a wrong vault alone,
/// `InvalidVault`.
pub proof fn lemma_checker_accepts_exactly_its_campaign(
    data: Seq<u8>,
    fundraiser_data: Seq<u8>,
    keys: CheckerKeys,
    ids: ProgramIds,
)
    requires
        fundraiser_data.len() == 90,
        data.len() >= 1,
    ensures
        ({
            let maker = fundraiser_data.subrange(0, 32);
            let maker_ok = keys.maker@ == maker;
            let mint_ok = keys.mint_to_raise@ == fundraiser_data.subrange(32, 64);
            let address_ok = keys.fundraiser@ == derived_address(
                fundraiser_seeds(maker, data[0]),
                ids.program@,
            );
            let bump_ok = data[0] == fundraiser_data[89];
            let vault_ok = keys.vault@ == derived_address(
                vault_seeds(keys.fundraiser@, ids.token_program@, keys.mint_to_raise@),
                ids.associated_token_program@,
            );
            let answer = checker_setup_error(true, data, fundraiser_data, keys, ids);
            &&& answer is None <==> (maker_ok && mint_ok && address_ok && bump_ok && vault_ok)
            &&& !(maker_ok && mint_ok && address_ok && bump_ok) ==> answer == Some(
                ProgramError::InvalidAccountData,
            )
            &&& (maker_ok && mint_ok && address_ok && bump_ok && !vault_ok) ==> answer == Some(
                custom(FundraiserError::InvalidVault),
            )
        }),
        checker_setup_error(false, data, fundraiser_data, keys, ids) == Some(
            ProgramError::MissingRequiredSignature,
        ),
{
}

/// `refund` accepts exactly the accounts of the campaign whose data it reads
/// and of the signing contributor's record: a signed request passes the
/// account checks if and only if the maker and mint are the ones recorded,
/// the campaign address is derived from that maker and the payload's first
/// bump, that bump is the recorded one, the record is derived from the
/// campaign, the contributor and the payload's second bump, and the vault is
/// the campaign's associated token account for the mint.
pub proof fn lemma_refund_accepts_exactly_its_campaign(
    data: Seq<u8>,
    fundraiser_data: Seq<u8>,
    keys: RefundKeys,
    ids: ProgramIds,
)
    requires
        fundraiser_data.len() == 90,
        data.len() >= 2,
    ensures
        ({
            let maker = fundraiser_data.subrange(0, 32);
            let maker_ok = keys.maker@ == maker;
            let mint_ok = keys.mint_to_raise@ == fundraiser_data.subrange(32, 64);
            let address_ok = keys.fundraiser@ == derived_address(
                fundraiser_seeds(maker, data[0]),
                ids.program@,
            );
            let bump_ok = data[0] == fundraiser_data[89];
            let record_ok = keys.contributor_account@ == derived_address(
                contributor_seeds(keys.fundraiser@, keys.contributor@, data[1]),
                ids.program@,
            );
            let vault_ok = keys.vault@ == derived_address(
                vault_seeds(keys.fundraiser@, ids.token_program@, keys.mint_to_raise@),
                ids.associated_token_program@,
            );
            let answer = refund_setup_error(true, data, fundraiser_data, keys, ids);
            &&& answer is None <==> (maker_ok && mint_ok && address_ok && bump_ok && record_ok
                && vault_ok)
            &&& !(maker_ok && mint_ok && address_ok && bump_ok && record_ok) ==> answer == Some(
                ProgramError::InvalidAccountData,
            )
            &&& (maker_ok && mint_ok && address_ok && bump_ok && record_ok && !vault_ok) ==> answer
                == Some(custom(FundraiserError::InvalidVault))
        }),
        refund_setup_error(false, data, fundraiser_data, keys, ids) == Some(
            ProgramError::MissingRequiredSignature,
        ),
{
}

/// `contribute` accepts exactly the accounts of the campaign whose data it
/// reads: a signed request with a full payload passes the checks before the
/// contributor record is created if and only if the campaign address is
/// derived from the recorded maker and the payload's second bump, the mint is
/// the one recorded in bytes 32..64, and the record is derived from the
/// campaign, the contributor and the payload's first bump; otherwise it is
/// answered `InvalidAccountData`.
pub proof fn lemma_contribute_accepts_exactly_its_campaign(
    data: Seq<u8>,
    fundraiser_data: Seq<u8>,
    keys: ContributeKeys,
    program_id: Seq<u8>,
)
    requires
        fundraiser_data.len() == 90,
        data.len() >= 10,
    ensures
        ({
            let address_ok = keys.fundraiser@ == derived_address(
                fundraiser_seeds(fundraiser_data.subrange(0, 32), data[1]),
                program_id,
            );
            let mint_ok = keys.mint_to_raise@ == fundraiser_data.subrange(32, 64);
            let record_ok = keys.contributor_account@ == derived_address(
                contributor_seeds(keys.fundraiser@, keys.contributor@, data[0]),
                program_id,
            );
            let answer = contribute_setup_error(true, data, fundraiser_data, keys, program_id);
            &&& answer is None <==> (address_ok && mint_ok && record_ok)
            &&& !(address_ok && mint_ok && record_ok) ==> answer == Some(
                ProgramError::InvalidAccountData,
            )
        }),
        contribute_setup_error(false, data, fundraiser_data, keys, program_id) == Some(
            ProgramError::MissingRequiredSignature,
        ),
{
}

/// A deposit is accepted by the size checks of `contribute` if and only if
/// it exceeds one whole token and is at most 10% of the target (where both
/// thresholds fit in 64 bits); below or at one token it is answered
/// `ContributionTooSmall`, above the cap `ContributionTooBig`.
pub proof fn lemma_contribution_size_bounds(
    amount: u64,
    goal: nat,
    contributor_data: Seq<u8>,
    decimals: u8,
)
    requires
        contributor_data.len() == 8,
        pow10(decimals as nat) <= u64::MAX,
        goal * 10 <= u64::MAX,
    ensures
        (contribution_size_check(amount, goal, contributor_data, decimals) is Ok) <==> (amount
            > pow10(decimals as nat) && amount <= goal * 10 / 100),
        contribution_size_check(amount, goal, contributor_data, decimals) matches Ok((acc, cap))
            ==> acc == le_value(contributor_data) && cap == goal * 10 / 100,
        amount <= pow10(decimals as nat) ==> contribution_size_check(
            amount,
            goal,
            contributor_data,
            decimals,
        ) == Err::<(nat, nat), ProgramError>(custom(FundraiserError::ContributionTooSmall)),
        amount > pow10(decimals as nat) && amount > goal * 10 / 100 ==> contribution_size_check(
            amount,
            goal,
            contributor_data,
            decimals,
        ) == Err::<(nat, nat), ProgramError>(custom(FundraiserError::ContributionTooBig)),
{
}

/// While the campaign runs, a deposit that keeps the contributor's running
/// total within the cap is accepted with that total; one that takes it past
/// the cap is answered `MaximumContributionsReached`.
pub proof fn lemma_contribution_window_accepts_within_cap(
    amount: u64,
    accumulated: nat,
    cap: nat,
    time_started: i64,
    duration: u8,
    now: i64,
)
    requires
        days_elapsed(now, time_started) < duration as int,
        cap <= u64::MAX,
    ensures
        accumulated + amount <= cap ==> contribution_window_check(
            amount,
            accumulated,
            cap,
            time_started,
            duration,
            now,
        ) == Ok::<nat, ProgramError>((accumulated + amount) as nat),
        accumulated + amount > cap && accumulated + amount <= u64::MAX
            ==> contribution_window_check(amount, accumulated, cap, time_started, duration, now)
            == Err::<nat, ProgramError>(custom(FundraiserError::MaximumContributionsReached)),
{
}

/// `initialize` accepts a target if and only if it exceeds three whole tokens
/// of the mint (where that threshold fits in 64 bits), and answers
/// `InvalidAmount` otherwise.
pub proof fn lemma_target_threshold(amount_to_raise: u64, decimals: u8)
    requires
        3 * pow10(decimals as nat) <= u64::MAX,
    ensures
        amount_to_raise_check(amount_to_raise, decimals) is Ok <==> amount_to_raise > 3 * pow10(
            decimals as nat,
        ),
        amount_to_raise <= 3 * pow10(decimals as nat) ==> amount_to_raise_check(
            amount_to_raise,
            decimals,
        ) == Err::<(), ProgramError>(custom(FundraiserError::InvalidAmount)),
{
}

/// The maker's claim passes if and only if the vault holds at least the
/// target; a refund passes if and only if the campaign has run its duration
/// and the vault holds less than the target.
pub proof fn lemma_claim_and_refund_conditions(
    goal: nat,
    time_started: i64,
    duration: u8,
    vault_amount: u64,
    now: i64,
)
    ensures
        claim_check(goal, vault_amount) is Ok <==> vault_amount >= goal,
        refund_check(goal, time_started, duration, vault_amount, now) is Ok <==> (days_elapsed(
            now,
            time_started,
        ) >= duration as int && vault_amount < goal),
{
}

/// The day count is the number of whole days since the start: `k` days and
/// `r < 86400` seconds after the start it is `k`.
pub proof fn lemma_days_elapsed_counts_days(time_started: i64, now: i64, k: int, r: int)
    requires
        k >= 0,
        0 <= r < 86400,
        now - time_started == 86400 * k + r,
    ensures
        days_elapsed(now, time_started) == k,
{
    vstd::arithmetic::div_mod::lemma_fundamental_div_mod_converse(now - time_started, 86400, k, r);
}

/// Recording a deposit that does not overflow adds exactly the deposit to
/// the campaign's total.
pub proof fn lemma_recorded_total_adds_deposit(raised: nat, amount: nat)
    requires
        raised + amount <= u64::MAX,
    ensures
        add_wrapping(raised, amount) == raised + amount,
{
}

} // verus!
