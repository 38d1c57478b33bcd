//! Checked arithmetic for the reward formula.
//!
//! The formula is evaluated in 128 bits, one step at a time. Each step either
//! yields the exact mathematical result or reports the tag of the step that
//! left the domain; nothing wraps or truncates silently.

use vstd::prelude::*;
use crate::errors::ErrorCode;

verus! {

/// Multiplies the reward rate by the elapsed time.
pub fn checked_mul_time(rate: u128, elapsed: u128) -> (res: Result<u128, ErrorCode>)
    ensures
        rate * elapsed <= u128::MAX ==> res == Ok::<u128, ErrorCode>((rate * elapsed) as u128),
        rate * elapsed > u128::MAX ==> res == Err::<u128, ErrorCode>(
            ErrorCode::REWARD_RATE_TIME_OVERFLOW,
        ),
{
    match rate.checked_mul(elapsed) {
        Some(accrued) => Ok(accrued),
        None => Err(ErrorCode::REWARD_RATE_TIME_OVERFLOW),
    }
}

/// Multiplies the amount accrued per staked unit by the staked amount.
pub fn checked_mul_stake(accrued: u128, staked_amount: u128) -> (res: Result<u128, ErrorCode>)
    ensures
        accrued * staked_amount <= u128::MAX ==> res == Ok::<u128, ErrorCode>(
            (accrued * staked_amount) as u128,
        ),
        accrued * staked_amount > u128::MAX ==> res == Err::<u128, ErrorCode>(
            ErrorCode::STAKE_AMOUNT_MULTIPLICATION_OVERFLOW,
        ),
{
    match accrued.checked_mul(staked_amount) {
        Some(weighted) => Ok(weighted),
        None => Err(ErrorCode::STAKE_AMOUNT_MULTIPLICATION_OVERFLOW),
    }
}

/// Divides by the pool's total stake, rounding down.
pub fn checked_div_share(weighted: u128, total_staked: u128) -> (res: Result<u128, ErrorCode>)
    ensures
        total_staked != 0 ==> res == Ok::<u128, ErrorCode>((weighted / total_staked) as u128),
        total_staked == 0 ==> res == Err::<u128, ErrorCode>(ErrorCode::POOL_SHARE_DIVISION_ERROR),
{
    match weighted.checked_div(total_staked) {
        Some(share) => Ok(share),
        None => Err(ErrorCode::POOL_SHARE_DIVISION_ERROR),
    }
}

/// Narrows a 128-bit amount to the 64 bits in which token amounts are held.
pub fn narrow_to_unit(amount: u128) -> (res: Result<u64, ErrorCode>)
    ensures
        amount <= u64::MAX ==> res == Ok::<u64, ErrorCode>(amount as u64),
        amount > u64::MAX ==> res == Err::<u64, ErrorCode>(ErrorCode::REWARD_AMOUNT_OVERFLOW),
{
    match u64::try_from(amount) {
        Ok(units) => Ok(units),
        Err(_) => Err(ErrorCode::REWARD_AMOUNT_OVERFLOW),
    }
}

} // verus!
