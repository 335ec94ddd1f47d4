//! Program-derived addresses of the fundraiser's accounts.
use vstd::prelude::*;
use crate::constants::{CONTRIBUTOR_SEED, FUNDRAISER_SEED};

verus! {

/// The address that the runtime derives from `seeds` for `program_id`
/// (SHA-256 of the seeds, the program id and the PDA marker).
pub uninterp spec fn derived_address(seeds: Seq<Seq<u8>>, program_id: Seq<u8>) -> Seq<u8>;

/// Calls `pinocchio_pubkey::derive_address_const` with no bump.
///
/// Trusted: the address returned is the one that the outside function computes
/// from the seeds and the program id, here named `derived_address`. Nothing is
/// claimed about its value beyond that it depends on these arguments alone.
/// The constant-evaluable variant is called because `derive_address` computes
/// the same hash only on the on-chain target and is unavailable elsewhere.
#[verifier::external_body]
fn derive_address<const N: usize>(seeds: &[&[u8]; N], program_id: &[u8; 32]) -> (address: [u8; 32])
    ensures
        address@ == derived_address(seeds@.map_values(|s: &[u8]| s@), program_id@),
{
    pinocchio_pubkey::derive_address_const(seeds, None, program_id)
}

/// The ids of the programs that the fundraiser's addresses are derived for.
#[derive(Clone, Copy, Debug, PartialEq, Eq)]
pub struct ProgramIds {
    /// The fundraiser program itself.
    pub program: [u8; 32],
    /// The SPL token program.
    pub token_program: [u8; 32],
    /// The associated token account program.
    pub associated_token_program: [u8; 32],
}

/// Compares two addresses byte by byte.
pub fn same_address(a: &[u8; 32], b: &[u8; 32]) -> (same: bool)
    ensures
        same == (a@ == b@),
{
    let mut i: usize = 0;
    while i < 32
        invariant
            i <= 32,
            forall|j: int| 0 <= j < i ==> a@[j] == b@[j],
        decreases 32 - i,
    {
        if a[i] != b[i] {
            return false;
        }
        i = i + 1;
    }
    assert(a@ =~= b@);
    true
}

/// Seeds of a campaign's state account: `["fundraiser", maker, [bump]]`.
pub open spec fn fundraiser_seeds(maker: Seq<u8>, bump: u8) -> Seq<Seq<u8>> {
    seq![FUNDRAISER_SEED@, maker, seq![bump]]
}

/// Seeds of a contributor's record: `["contributor", fundraiser, contributor, [bump]]`.
pub open spec fn contributor_seeds(fundraiser: Seq<u8>, contributor: Seq<u8>, bump: u8) -> Seq<
    Seq<u8>,
> {
    seq![CONTRIBUTOR_SEED@, fundraiser, contributor, seq![bump]]
}

/// Seeds of an associated token account: `[wallet, token_program, mint]`.
pub open spec fn vault_seeds(wallet: Seq<u8>, token_program: Seq<u8>, mint: Seq<u8>) -> Seq<
    Seq<u8>,
> {
    seq![wallet, token_program, mint]
}

/// The address of the campaign state account that `maker` opens with `bump`.
pub fn fundraiser_address(maker: &[u8; 32], bump: u8, program_id: &[u8; 32]) -> (address: [u8; 32])
    ensures
        address@ == derived_address(fundraiser_seeds(maker@, bump), program_id@),
{
    let bump_seed: [u8; 1] = [bump];
    let s0 = FUNDRAISER_SEED.as_slice();
    let s1 = maker.as_slice();
    let s2 = bump_seed.as_slice();
    let seeds: [&[u8]; 3] = [s0, s1, s2];
    let address = derive_address(&seeds, program_id);
    assert(bump_seed@ =~= seq![bump]);
    assert(seeds@.len() == 3);
    assert(seeds@[0] == s0 && seeds@[1] == s1 && seeds@[2] == s2);
    assert(seeds@.map_values(|s: &[u8]| s@) =~= fundraiser_seeds(maker@, bump));
    address
}

/// The address of the record of `contributor`'s deposits to `fundraiser`.
pub fn contributor_address(
    fundraiser: &[u8; 32],
    contributor: &[u8; 32],
    bump: u8,
    program_id: &[u8; 32],
) -> (address: [u8; 32])
    ensures
        address@ == derived_address(contributor_seeds(fundraiser@, contributor@, bump), program_id@),
{
    let bump_seed: [u8; 1] = [bump];
    let s0 = CONTRIBUTOR_SEED.as_slice();
    let s1 = fundraiser.as_slice();
    let s2 = contributor.as_slice();
    let s3 = bump_seed.as_slice();
    let seeds: [&[u8]; 4] = [s0, s1, s2, s3];
    let address = derive_address(&seeds, program_id);
    assert(bump_seed@ =~= seq![bump]);
    assert(seeds@.len() == 4);
    assert(seeds@[0] == s0 && seeds@[1] == s1 && seeds@[2] == s2 && seeds@[3] == s3);
    assert(seeds@.map_values(|s: &[u8]| s@) =~= contributor_seeds(fundraiser@, contributor@, bump));
    address
}

/// The address of `wallet`'s associated token account for `mint`, derived for
/// the associated token account program `ata_program_id`.
pub fn vault_address(
    wallet: &[u8; 32],
    token_program_id: &[u8; 32],
    mint: &[u8; 32],
    ata_program_id: &[u8; 32],
) -> (address: [u8; 32])
    ensures
        address@ == derived_address(
            vault_seeds(wallet@, token_program_id@, mint@),
            ata_program_id@,
        ),
{
    let s0 = wallet.as_slice();
    let s1 = token_program_id.as_slice();
    let s2 = mint.as_slice();
    let seeds: [&[u8]; 3] = [s0, s1, s2];
    let address = derive_address(&seeds, ata_program_id);
    assert(seeds@.len() == 3);
    assert(seeds@[0] == s0 && seeds@[1] == s1 && seeds@[2] == s2);
    assert(seeds@.map_values(|s: &[u8]| s@) =~= vault_seeds(wallet@, token_program_id@, mint@));
    address
}

} // verus!
