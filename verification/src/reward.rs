//! The reward owed to a position: a function of the pool, the position and the
//! current time, with no effect on either record.

use vstd::prelude::*;
use crate::arith::{checked_div_share, checked_mul_stake, checked_mul_time, narrow_to_unit};
use crate::errors::{ErrorCode, ErrorKind};
use crate::records::{PoolConfig, UserStakePosition};

verus! {

/// The seconds from `last_claimed` to `current_time`, and zero where the
/// clock has gone back.
pub open spec fn elapsed_seconds(current_time: i64, last_claimed: i64) -> nat {
    if current_time > last_claimed {
        (current_time - last_claimed) as nat
    } else {
        0
    }
}

/// The reward formula `rate * elapsed * staked / total`, rounded down.
///
/// It is evaluated in the order rate times elapsed, times staked, divided by
/// total. The two products have to fit in 128 bits, the total must not be
/// zero, and the quotient has to fit in 64 bits; the outcome is the tag of the
/// first step that fails.
pub open spec fn reward_outcome(rate: nat, elapsed: nat, staked: nat, total: nat) -> Result<
    u64,
    ErrorCode,
> {
    if rate * elapsed > u128::MAX {
        Err(ErrorCode::REWARD_RATE_TIME_OVERFLOW)
    } else if rate * elapsed * staked > u128::MAX {
        Err(ErrorCode::STAKE_AMOUNT_MULTIPLICATION_OVERFLOW)
    } else if total == 0 {
        Err(ErrorCode::POOL_SHARE_DIVISION_ERROR)
    } else if rate * elapsed * staked / total > u64::MAX {
        Err(ErrorCode::REWARD_AMOUNT_OVERFLOW)
    } else {
        Ok((rate * elapsed * staked / total) as u64)
    }
}

/// The reward that `position` has earned in `pool` since it was last settled.
pub open spec fn reward_owed(pool: PoolConfig, position: UserStakePosition, current_time: i64)
    -> Result<u64, ErrorCode> {
    reward_outcome(
        pool.pool_reward_rate as nat,
        elapsed_seconds(current_time, position.last_claimed),
        position.amount_staked as nat,
        pool.total_staked as nat,
    )
}

/// The time for which a position has accrued reward.
pub fn time_elapsed(current_time: i64, last_claimed: i64) -> (elapsed: u64)
    ensures
        elapsed == elapsed_seconds(current_time, last_claimed),
        current_time <= last_claimed ==> elapsed == 0,
{
    if current_time > last_claimed {
        let span: i128 = current_time as i128 - last_claimed as i128;
        span as u64
    } else {
        0
    }
}

/// Evaluates the reward formula on 128-bit operands.
pub fn compute_reward(rate: u128, elapsed: u128, staked: u128, total: u128) -> (res: Result<
    u64,
    ErrorCode,
>)
    ensures
        res == reward_outcome(rate as nat, elapsed as nat, staked as nat, total as nat),
        res matches Ok(reward) ==> reward * total <= rate * elapsed * staked < (reward + 1)
            * total,
{
    let accrued: u128 = match checked_mul_time(rate, elapsed) {
        Ok(accrued) => accrued,
        Err(e) => { return Err(e); },
    };
    let weighted: u128 = match checked_mul_stake(accrued, staked) {
        Ok(weighted) => weighted,
        Err(e) => { return Err(e); },
    };
    let share: u128 = match checked_div_share(weighted, total) {
        Ok(share) => share,
        Err(e) => { return Err(e); },
    };
    proof {
        lemma_floor_bounds(weighted as nat, total as nat);
    }
    narrow_to_unit(share)
}

/// Computes the reward that `position` has earned in `pool` since it was last
/// settled.
///
/// With a 64-bit rate and a 64-bit time span the first product always fits, so
/// the overflow of rate times time is never reported here. A position that was
/// settled at or after `current_time` has earned nothing.
pub fn accrued_reward(pool: &PoolConfig, position: &UserStakePosition, current_time: i64) -> (res:
    Result<u64, ErrorCode>)
    ensures
        res == reward_owed(*pool, *position, current_time),
        res != Err::<u64, ErrorCode>(ErrorCode::REWARD_RATE_TIME_OVERFLOW),
        pool.total_staked > 0 ==> res != Err::<u64, ErrorCode>(
            ErrorCode::POOL_SHARE_DIVISION_ERROR,
        ),
        current_time <= position.last_claimed && pool.total_staked > 0 ==> res == Ok::<
            u64,
            ErrorCode,
        >(0),
{
    let elapsed: u64 = time_elapsed(current_time, position.last_claimed);
    proof {
        lemma_rate_time_fits(pool.pool_reward_rate as nat, elapsed as nat);
        lemma_nothing_accrues_in_no_time(
            pool.pool_reward_rate as nat,
            position.amount_staked as nat,
            pool.total_staked as nat,
        );
    }
    compute_reward(
        pool.pool_reward_rate as u128,
        elapsed as u128,
        position.amount_staked as u128,
        pool.total_staked as u128,
    )
}

/// Rounding down: the quotient times the divisor is the largest multiple of
/// the divisor that does not exceed the dividend.
pub proof fn lemma_floor_bounds(dividend: nat, divisor: nat)
    requires
        divisor > 0,
    ensures
        (dividend / divisor) * divisor <= dividend < (dividend / divisor + 1) * divisor,
{
    assert((dividend / divisor) * divisor <= dividend < (dividend / divisor + 1) * divisor)
        by (nonlinear_arith)
        requires
            divisor > 0,
    ;
}

/// The product of two 64-bit numbers fits in 128 bits.
pub proof fn lemma_rate_time_fits(rate: nat, elapsed: nat)
    requires
        rate <= u64::MAX,
        elapsed <= u64::MAX,
    ensures
        rate * elapsed <= u128::MAX,
{
    assert(rate * elapsed <= 0xffff_ffff_ffff_ffff * 0xffff_ffff_ffff_ffff) by (nonlinear_arith)
        requires
            rate <= 0xffff_ffff_ffff_ffff,
            elapsed <= 0xffff_ffff_ffff_ffff,
    ;
}

/// Over a time span of zero the formula yields zero, whatever the rate and
/// the stake, provided the pool's total is not zero.
pub proof fn lemma_nothing_accrues_in_no_time(rate: nat, staked: nat, total: nat)
    ensures
        total > 0 ==> reward_outcome(rate, 0, staked, total) == Ok::<u64, ErrorCode>(0),
        total == 0 ==> reward_outcome(rate, 0, staked, total) == Err::<u64, ErrorCode>(
            ErrorCode::POOL_SHARE_DIVISION_ERROR,
        ),
{
    assert(rate * 0 == 0) by (nonlinear_arith);
    assert(0 * staked == 0) by (nonlinear_arith);
    if total > 0 {
        assert(0nat / total == 0) by (nonlinear_arith)
            requires
                total > 0,
        ;
    }
}

/// The formula reports arithmetic failures only: never a tag with which an
/// operation is rejected for the state of its accounts.
pub proof fn lemma_reward_fails_in_arithmetic_only(rate: nat, elapsed: nat, staked: nat, total: nat)
    ensures
        reward_outcome(rate, elapsed, staked, total) matches Err(e) ==> e.kind()
            == ErrorKind::Arithmetic,
{
}

} // verus!
