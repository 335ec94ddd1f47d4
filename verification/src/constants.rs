use vstd::prelude::*;

verus! {

/// Minimum number of whole tokens that a campaign must aim to raise.
pub const MIN_AMOUNT_TO_RAISE: u64 = 3;

/// Largest share of the goal, in percent, that one contributor may deposit.
pub const MAX_CONTRIBUTION_PERCENTAGE: u64 = 10;

/// Denominator of percentage arithmetic.
pub const PERCENTAGE_SCALER: u64 = 100;

/// Seconds in a day, for elapsed-time arithmetic.
pub const SECONDS_TO_DAYS: i64 = 86400;

/// First seed of a campaign's state address: the bytes of `"fundraiser"`.
pub const FUNDRAISER_SEED: [u8; 10] = [102, 117, 110, 100, 114, 97, 105, 115, 101, 114];

/// First seed of a contributor's record address: the bytes of `"contributor"`.
pub const CONTRIBUTOR_SEED: [u8; 11] = [99, 111, 110, 116, 114, 105, 98, 117, 116, 111, 114];

} // verus!
