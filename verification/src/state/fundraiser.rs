use vstd::prelude::*;
use crate::error::ProgramError;
use crate::le_bytes::{
    i64_bits,
    i64_from_bits,
    i64_to_le,
    le_bytes,
    le_value,
    lemma_i64_bits_roundtrip,
    lemma_i64_from_bits_roundtrip,
    lemma_le_bytes_len,
    lemma_le_bytes_of_value,
    lemma_le_value_bound,
    lemma_le_value_of_bytes,
    lemma_pow256_facts,
    read_bytes32,
    read_bytes8,
    read_i64_le,
    u64_from_le,
    u64_to_le,
};

verus! {

/// The state of one campaign.
///
/// Account data layout (90 bytes): `maker` (32) | `mint_to_raise` (32) |
/// `amount_to_raise` (8, little-endian) | `current_amount` (8, little-endian) |
/// `time_started` (8, little-endian two's complement) | `duration` (1) | `bump` (1).
#[derive(Clone, Copy, Debug, PartialEq, Eq)]
pub struct Fundraiser {
    /// The campaign's creator.
    pub maker: [u8; 32],
    /// The mint that the campaign collects.
    pub mint_to_raise: [u8; 32],
    /// The target amount.
    pub amount_to_raise: [u8; 8],
    /// The total contributed so far.
    pub current_amount: [u8; 8],
    /// Unix timestamp at which the campaign opened.
    pub time_started: i64,
    /// Length of the campaign in days.
    pub duration: u8,
    /// Bump of the campaign's state address.
    pub bump: u8,
}

/// The maker recorded in campaign account data.
pub open spec fn stored_maker(data: Seq<u8>) -> Seq<u8> {
    data.subrange(0, 32)
}

/// The mint recorded in campaign account data.
pub open spec fn stored_mint(data: Seq<u8>) -> Seq<u8> {
    data.subrange(32, 64)
}

/// The target amount recorded in campaign account data.
pub open spec fn stored_amount_to_raise(data: Seq<u8>) -> nat {
    le_value(data.subrange(64, 72))
}

/// The contributed total recorded in campaign account data.
pub open spec fn stored_current_amount(data: Seq<u8>) -> nat {
    le_value(data.subrange(72, 80))
}

/// The opening time recorded in campaign account data.
pub open spec fn stored_time_started(data: Seq<u8>) -> int {
    i64_from_bits(le_value(data.subrange(80, 88)))
}

/// The duration in days recorded in campaign account data.
pub open spec fn stored_duration(data: Seq<u8>) -> u8 {
    data[88]
}

/// The address bump recorded in campaign account data.
pub open spec fn stored_bump(data: Seq<u8>) -> u8 {
    data[89]
}

impl Fundraiser {
    /// Size of a campaign's account data.
    pub const LEN: usize = 90;

    /// The account data that holds this state.
    pub open spec fn account_bytes(self) -> Seq<u8> {
        self.maker@ + self.mint_to_raise@ + self.amount_to_raise@ + self.current_amount@
            + le_bytes(i64_bits(self.time_started), 8) + seq![self.duration, self.bump]
    }

    /// The target amount.
    pub open spec fn goal(self) -> nat {
        le_value(self.amount_to_raise@)
    }

    /// The total contributed so far.
    pub open spec fn raised(self) -> nat {
        le_value(self.current_amount@)
    }

    /// Reads a campaign from its account data, which must be exactly `LEN`
    /// bytes long.
    pub fn from_account_info(account_data: &[u8]) -> (r: Result<Fundraiser, ProgramError>)
        ensures
            account_data@.len() != 90 ==> r == Err::<Fundraiser, ProgramError>(
                ProgramError::InvalidAccountData,
            ),
            account_data@.len() == 90 ==> (r matches Ok(f) && f.account_bytes() == account_data@
                && f.maker@ == stored_maker(account_data@) && f.mint_to_raise@ == stored_mint(
                account_data@,
            ) && f.goal() == stored_amount_to_raise(account_data@) && f.raised()
                == stored_current_amount(account_data@) && f.time_started == stored_time_started(
                account_data@,
            ) && f.duration == stored_duration(account_data@) && f.bump == stored_bump(
                account_data@,
            )),
    {
        if account_data.len() != Self::LEN {
            return Err(ProgramError::InvalidAccountData);
        }
        let maker = read_bytes32(account_data, 0);
        let mint_to_raise = read_bytes32(account_data, 32);
        let amount_to_raise = read_bytes8(account_data, 64);
        let current_amount = read_bytes8(account_data, 72);
        let time_started = read_i64_le(account_data, 80);
        let duration = account_data[88];
        let bump = account_data[89];
        let f = Fundraiser {
            maker,
            mint_to_raise,
            amount_to_raise,
            current_amount,
            time_started,
            duration,
            bump,
        };
        proof {
            let d = account_data@;
            let t = d.subrange(80, 88);
            lemma_le_value_bound(t);
            lemma_pow256_facts();
            lemma_i64_from_bits_roundtrip(le_value(t));
            lemma_le_bytes_of_value(t);
            assert(f.account_bytes() =~= d);
        }
        Ok(f)
    }

    /// The account data that holds this state.
    pub fn to_account_data(&self) -> (data: Vec<u8>)
        ensures
            data@ == self.account_bytes(),
    {
        let mut data: Vec<u8> = Vec::with_capacity(Self::LEN);
        let time = i64_to_le(self.time_started);
        append_bytes(&mut data, self.maker.as_slice());
        append_bytes(&mut data, self.mint_to_raise.as_slice());
        append_bytes(&mut data, self.amount_to_raise.as_slice());
        append_bytes(&mut data, self.current_amount.as_slice());
        append_bytes(&mut data, time.as_slice());
        data.push(self.duration);
        data.push(self.bump);
        assert(data@ =~= self.account_bytes());
        data
    }

    /// The target amount.
    pub fn amount_to_raise(&self) -> (amount: u64)
        ensures
            amount == self.goal(),
    {
        u64_from_le(self.amount_to_raise)
    }

    /// The total contributed so far.
    pub fn current_amount(&self) -> (amount: u64)
        ensures
            amount == self.raised(),
    {
        u64_from_le(self.current_amount)
    }

    /// Unix timestamp at which the campaign opened.
    pub fn time_started(&self) -> (time: i64)
        ensures
            time == self.time_started,
    {
        self.time_started
    }

    /// Length of the campaign in days.
    pub fn duration(&self) -> (days: u8)
        ensures
            days == self.duration,
    {
        self.duration
    }

    /// Records the campaign's creator.
    pub fn set_maker(&mut self, maker: &[u8; 32])
        ensures
            *final(self) == (Fundraiser { maker: *maker, ..*old(self) }),
    {
        self.maker = *maker;
    }

    /// Records the mint that the campaign collects.
    pub fn set_mint_to_raise(&mut self, mint: &[u8; 32])
        ensures
            *final(self) == (Fundraiser { mint_to_raise: *mint, ..*old(self) }),
    {
        self.mint_to_raise = *mint;
    }

    /// Records the target amount.
    pub fn set_amount_to_raise(&mut self, amount: u64)
        ensures
            final(self).amount_to_raise@ == le_bytes(amount as nat, 8),
            final(self).goal() == amount,
            *final(self) == (Fundraiser { amount_to_raise: final(self).amount_to_raise, ..*old(self) }),
    {
        self.amount_to_raise = u64_to_le(amount);
        proof {
            lemma_pow256_facts();
            lemma_le_value_of_bytes(amount as nat, 8);
        }
    }

    /// Records the total contributed so far.
    pub fn set_current_amount(&mut self, amount: u64)
        ensures
            final(self).current_amount@ == le_bytes(amount as nat, 8),
            final(self).raised() == amount,
            *final(self) == (Fundraiser { current_amount: final(self).current_amount, ..*old(self) }),
    {
        self.current_amount = u64_to_le(amount);
        proof {
            lemma_pow256_facts();
            lemma_le_value_of_bytes(amount as nat, 8);
        }
    }

    /// Records the opening time.
    pub fn set_time_started(&mut self, time: i64)
        ensures
            *final(self) == (Fundraiser { time_started: time, ..*old(self) }),
    {
        self.time_started = time;
    }

    /// Records the length of the campaign in days.
    pub fn set_duration(&mut self, days: u8)
        ensures
            *final(self) == (Fundraiser { duration: days, ..*old(self) }),
    {
        self.duration = days;
    }
}

/// Appends `bytes` to `data`.
fn append_bytes(data: &mut Vec<u8>, bytes: &[u8])
    ensures
        final(data)@ == old(data)@ + bytes@,
{
    let mut i: usize = 0;
    while i < bytes.len()
        invariant
            i <= bytes@.len(),
            data@ == old(data)@ + bytes@.subrange(0, i as int),
        decreases bytes@.len() - i,
    {
        data.push(bytes[i]);
        i = i + 1;
        assert(data@ =~= old(data)@ + bytes@.subrange(0, i as int));
    }
    assert(bytes@.subrange(0, i as int) =~= bytes@);
}

/// Two campaign states with the same account data are the same state, so
/// reading back the data that `to_account_data` produces gives the state
/// that produced it.
pub proof fn lemma_account_bytes_determine_state(f: Fundraiser, g: Fundraiser)
    requires
        f.account_bytes() == g.account_bytes(),
    ensures
        f == g,
{
    let b = f.account_bytes();
    lemma_le_bytes_len(i64_bits(f.time_started), 8);
    lemma_le_bytes_len(i64_bits(g.time_started), 8);
    assert(f.maker@ =~= b.subrange(0, 32));
    assert(g.maker@ =~= b.subrange(0, 32));
    assert(f.mint_to_raise@ =~= b.subrange(32, 64));
    assert(g.mint_to_raise@ =~= b.subrange(32, 64));
    assert(f.amount_to_raise@ =~= b.subrange(64, 72));
    assert(g.amount_to_raise@ =~= b.subrange(64, 72));
    assert(f.current_amount@ =~= b.subrange(72, 80));
    assert(g.current_amount@ =~= b.subrange(72, 80));
    assert(le_bytes(i64_bits(f.time_started), 8) =~= b.subrange(80, 88));
    assert(le_bytes(i64_bits(g.time_started), 8) =~= b.subrange(80, 88));
    lemma_pow256_facts();
    lemma_i64_bits_roundtrip(f.time_started);
    lemma_i64_bits_roundtrip(g.time_started);
    lemma_le_value_of_bytes(i64_bits(f.time_started), 8);
    lemma_le_value_of_bytes(i64_bits(g.time_started), 8);
    assert(f.duration == b[88] && g.duration == b[88]);
    assert(f.bump == b[89] && g.bump == b[89]);
    assert(f.maker =~= g.maker);
    assert(f.mint_to_raise =~= g.mint_to_raise);
    assert(f.amount_to_raise =~= g.amount_to_raise);
    assert(f.current_amount =~= g.current_amount);
}

/// The account data of every campaign state is `LEN` bytes long, so
/// `from_account_info` accepts it.
pub proof fn lemma_account_bytes_len(f: Fundraiser)
    ensures
        f.account_bytes().len() == 90,
{
    lemma_le_bytes_len(i64_bits(f.time_started), 8);
}

} // verus!
