//! The campaign's arithmetic rules: amount thresholds and elapsed time.
use vstd::prelude::*;
use crate::constants::{
    MAX_CONTRIBUTION_PERCENTAGE,
    MIN_AMOUNT_TO_RAISE,
    PERCENTAGE_SCALER,
    SECONDS_TO_DAYS,
};

verus! {

/// `10` to the power `n`.
pub open spec fn pow10(n: nat) -> nat
    decreases n,
{
    if n == 0 {
        1
    } else {
        10 * pow10((n - 1) as nat)
    }
}

/// The smallest target a campaign may not go below, in base units of a mint
/// with `decimals` decimals: `MIN_AMOUNT_TO_RAISE * 10^decimals`, or `None`
/// where that does not fit in 64 bits.
pub open spec fn min_raise(decimals: u8) -> Option<nat> {
    if MIN_AMOUNT_TO_RAISE * pow10(decimals as nat) <= u64::MAX {
        Some((MIN_AMOUNT_TO_RAISE * pow10(decimals as nat)) as nat)
    } else {
        None
    }
}

/// One whole token of a mint with `decimals` decimals, or `None` where it
/// does not fit in 64 bits.
pub open spec fn one_token(decimals: u8) -> Option<nat> {
    if pow10(decimals as nat) <= u64::MAX {
        Some(pow10(decimals as nat))
    } else {
        None
    }
}

/// The most that one contributor may deposit to a campaign with target
/// `goal`: `goal * MAX_CONTRIBUTION_PERCENTAGE / PERCENTAGE_SCALER`, or
/// `None` where the product does not fit in 64 bits.
pub open spec fn contribution_cap(goal: nat) -> Option<nat> {
    if goal * MAX_CONTRIBUTION_PERCENTAGE <= u64::MAX {
        Some(((goal * MAX_CONTRIBUTION_PERCENTAGE) / (PERCENTAGE_SCALER as int)) as nat)
    } else {
        None
    }
}

/// Integer division rounding toward zero.
pub open spec fn trunc_div(a: int, b: int) -> int {
    if a >= 0 {
        a / b
    } else {
        -((-a) / b)
    }
}

/// Whole days from `started` to `now`: the exact time difference divided by
/// the seconds of a day, rounding toward zero. It is negative where `now`
/// lies a day or more before `started`.
pub open spec fn days_elapsed(now: i64, started: i64) -> int {
    trunc_div(now - started, SECONDS_TO_DAYS as int)
}

proof fn lemma_pow10_positive(n: nat)
    ensures
        pow10(n) >= 1,
    decreases n,
{
    if n > 0 {
        lemma_pow10_positive((n - 1) as nat);
    }
}

proof fn lemma_pow10_monotonic(a: nat, b: nat)
    requires
        a <= b,
    ensures
        pow10(a) <= pow10(b),
    decreases b,
{
    if a < b {
        lemma_pow10_monotonic(a, (b - 1) as nat);
        lemma_pow10_positive((b - 1) as nat);
    }
}

/// `10^exp`, or `None` where it does not fit in 64 bits.
pub fn checked_pow10(exp: u8) -> (r: Option<u64>)
    ensures
        r == (if pow10(exp as nat) <= u64::MAX {
            Some(pow10(exp as nat) as u64)
        } else {
            None
        }),
{
    let mut value: u64 = 1;
    let mut i: u8 = 0;
    while i < exp
        invariant
            i <= exp,
            value == pow10(i as nat),
        decreases exp - i,
    {
        match value.checked_mul(10) {
            Some(next) => {
                value = next;
                i = i + 1;
            },
            None => {
                proof {
                    lemma_pow10_monotonic((i + 1) as nat, exp as nat);
                }
                return None;
            },
        }
    }
    Some(value)
}

/// The smallest target that a campaign must exceed: `MIN_AMOUNT_TO_RAISE`
/// whole tokens of a mint with `decimals` decimals.
pub fn min_amount_to_raise(decimals: u8) -> (r: Option<u64>)
    ensures
        r matches Some(v) ==> min_raise(decimals) == Some(v as nat),
        r is None ==> min_raise(decimals) is None,
{
    match checked_pow10(decimals) {
        Some(scale) => MIN_AMOUNT_TO_RAISE.checked_mul(scale),
        None => None,
    }
}

/// One whole token of a mint with `decimals` decimals.
pub fn min_contribution(decimals: u8) -> (r: Option<u64>)
    ensures
        r matches Some(v) ==> one_token(decimals) == Some(v as nat),
        r is None ==> one_token(decimals) is None,
{
    checked_pow10(decimals)
}

/// The most that one contributor may deposit to a campaign with target
/// `amount_to_raise`.
pub fn max_contribution(amount_to_raise: u64) -> (r: Option<u64>)
    ensures
        r matches Some(v) ==> contribution_cap(amount_to_raise as nat) == Some(v as nat),
        r is None ==> contribution_cap(amount_to_raise as nat) is None,
{
    match amount_to_raise.checked_mul(MAX_CONTRIBUTION_PERCENTAGE) {
        Some(scaled) => Some(scaled / PERCENTAGE_SCALER),
        None => None,
    }
}

/// Whole days from `started` to `now`, as `days_elapsed` states.
pub fn elapsed_days(now: i64, started: i64) -> (days: i64)
    ensures
        days == days_elapsed(now, started),
{
    let diff: i128 = now as i128 - started as i128;
    if diff >= 0 {
        ((diff as u64) / (SECONDS_TO_DAYS as u64)) as i64
    } else {
        let magnitude: u64 = (-diff) as u64;
        -(((magnitude / (SECONDS_TO_DAYS as u64)) as i64))
    }
}

} // verus!
