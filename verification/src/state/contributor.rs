use vstd::prelude::*;
use crate::error::ProgramError;
use crate::le_bytes::{
    le_bytes,
    le_value,
    lemma_le_bytes_of_value,
    lemma_le_value_of_bytes,
    lemma_pow256_facts,
    read_bytes8,
    u64_from_le,
    u64_to_le,
};

verus! {

/// The record of one contributor's deposits to one campaign.
///
/// Its account data is the deposited total, eight bytes little-endian.
#[derive(Clone, Copy, Debug, Default, PartialEq, Eq)]
pub struct Contributor {
    pub amount: [u8; 8],
}

impl Contributor {
    /// Size of a contributor record's account data.
    pub const LEN: usize = 8;

    /// The deposited total that the record holds.
    pub open spec fn deposited(self) -> nat {
        le_value(self.amount@)
    }

    /// Reads a contributor record from its account data, which must be
    /// exactly `LEN` bytes long.
    pub fn from_account_info(account_data: &[u8]) -> (r: Result<Contributor, ProgramError>)
        ensures
            account_data@.len() != 8 ==> r == Err::<Contributor, ProgramError>(
                ProgramError::InvalidAccountData,
            ),
            account_data@.len() == 8 ==> (r matches Ok(c) && c.amount@ == account_data@),
    {
        if account_data.len() != Self::LEN {
            return Err(ProgramError::InvalidAccountData);
        }
        let amount = read_bytes8(account_data, 0);
        assert(account_data@.subrange(0, 8) =~= account_data@);
        Ok(Contributor { amount })
    }

    /// The deposited total.
    pub fn amount(&self) -> (amount: u64)
        ensures
            amount == self.deposited(),
    {
        u64_from_le(self.amount)
    }

    /// Records a new deposited total.
    pub fn set_amount(&mut self, amount: u64)
        ensures
            final(self).amount@ == le_bytes(amount as nat, 8),
    {
        self.amount = u64_to_le(amount);
    }
}

/// After `set_amount(x)`, `amount()` returns `x`.
pub proof fn lemma_amount_after_set_amount(amount: u64)
    ensures
        le_value(le_bytes(amount as nat, 8)) == amount,
{
    lemma_pow256_facts();
    lemma_le_value_of_bytes(amount as nat, 8);
}

/// Setting the amount that a record already holds leaves its bytes unchanged.
pub proof fn lemma_set_amount_of_amount(c: Contributor)
    ensures
        le_bytes(c.deposited(), 8) == c.amount@,
{
    lemma_le_bytes_of_value(c.amount@);
}

} // verus!
