use liquidity_mining::arith::{
    checked_div_share, checked_mul_stake, checked_mul_time, narrow_to_unit,
};
use liquidity_mining::ErrorCode;

#[test]
fn mul_time_is_exact_within_128_bits() {
    assert_eq!(checked_mul_time(1_000_000_000, 10), Ok(10_000_000_000));
    assert_eq!(checked_mul_time(0, u128::MAX), Ok(0));
    assert_eq!(checked_mul_time(u128::MAX, 1), Ok(u128::MAX));
    let two_64: u128 = 1u128 << 64;
    assert_eq!(checked_mul_time(two_64, two_64 - 1), Ok(u128::MAX - (two_64 - 1)));
}

#[test]
fn mul_time_reports_overflow_at_the_boundary() {
    let two_64: u128 = 1u128 << 64;
    assert_eq!(checked_mul_time(two_64, two_64), Err(ErrorCode::REWARD_RATE_TIME_OVERFLOW));
    assert_eq!(checked_mul_time(u128::MAX, 2), Err(ErrorCode::REWARD_RATE_TIME_OVERFLOW));
    assert_eq!(
        checked_mul_time(u128::MAX, u128::MAX),
        Err(ErrorCode::REWARD_RATE_TIME_OVERFLOW)
    );
}

#[test]
fn mul_stake_is_exact_within_128_bits() {
    assert_eq!(checked_mul_stake(10_000_000_000, 100), Ok(1_000_000_000_000));
    assert_eq!(checked_mul_stake(u128::MAX, 1), Ok(u128::MAX));
    assert_eq!(checked_mul_stake(u128::MAX / 2, 2), Ok(u128::MAX - 1));
}

#[test]
fn mul_stake_reports_overflow_with_its_own_tag() {
    assert_eq!(
        checked_mul_stake(u128::MAX / 2 + 1, 2),
        Err(ErrorCode::STAKE_AMOUNT_MULTIPLICATION_OVERFLOW)
    );
    assert_eq!(
        checked_mul_stake(u128::MAX, u64::MAX as u128),
        Err(ErrorCode::STAKE_AMOUNT_MULTIPLICATION_OVERFLOW)
    );
}

#[test]
fn div_share_rounds_down() {
    assert_eq!(checked_div_share(1_000_000_000_000, 1000), Ok(1_000_000_000));
    assert_eq!(checked_div_share(7, 2), Ok(3));
    assert_eq!(checked_div_share(1, 2), Ok(0));
    assert_eq!(checked_div_share(0, 5), Ok(0));
    assert_eq!(checked_div_share(u128::MAX, 1), Ok(u128::MAX));
}

#[test]
fn div_share_rejects_a_zero_total() {
    assert_eq!(checked_div_share(7, 0), Err(ErrorCode::POOL_SHARE_DIVISION_ERROR));
    assert_eq!(checked_div_share(0, 0), Err(ErrorCode::POOL_SHARE_DIVISION_ERROR));
}

#[test]
fn narrow_keeps_what_fits_in_64_bits() {
    assert_eq!(narrow_to_unit(0), Ok(0));
    assert_eq!(narrow_to_unit(1_000_000_000), Ok(1_000_000_000));
    assert_eq!(narrow_to_unit(u64::MAX as u128), Ok(u64::MAX));
}

#[test]
fn narrow_reports_what_does_not_fit() {
    assert_eq!(narrow_to_unit(u64::MAX as u128 + 1), Err(ErrorCode::REWARD_AMOUNT_OVERFLOW));
    assert_eq!(narrow_to_unit(u128::MAX), Err(ErrorCode::REWARD_AMOUNT_OVERFLOW));
}
