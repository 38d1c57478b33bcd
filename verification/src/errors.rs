use vstd::prelude::*;

verus! {

/// Why an operation was rejected.
///
/// Every failure is one of these tags, so that a caller can tell them apart.
/// The four arithmetic tags name the stage of the reward formula at which the
/// computation left its domain.
#[allow(non_camel_case_types)]
#[derive(Debug, Clone, Copy, PartialEq, Eq, Structural)]
pub enum ErrorCode {
    /// The caller is not the mint authority of the LP asset.
    INVALID_MINT_AUTHORITY,
    /// The caller's LP holding is smaller than the amount to stake.
    INSUFFICIANT_TOKEN_BALANCE,
    /// The position already holds a stake; a stake cannot be topped up.
    ALREADY_ACTIVE_POSITION,
    /// The position holds no stake.
    NO_ACTIVE_POSITION,
    /// The pool's total stake is zero, so no share of it can be computed.
    INVALID_POOL_STATE,
    /// Reward rate times elapsed time does not fit in 128 bits.
    REWARD_RATE_TIME_OVERFLOW,
    /// The accrued amount times the staked amount does not fit in 128 bits.
    STAKE_AMOUNT_MULTIPLICATION_OVERFLOW,
    /// The division by the pool's total stake is undefined.
    POOL_SHARE_DIVISION_ERROR,
    /// Reserved for a division that rescales the reward; no operation reports it.
    SCALING_DIVISION_ERROR,
    /// The reward does not fit in 64 bits.
    REWARD_AMOUNT_OVERFLOW,
}

/// The four families into which the tags fall.
#[derive(Debug, Clone, Copy, PartialEq, Eq, Structural)]
pub enum ErrorKind {
    /// The caller lacks the authority that the operation asks for.
    Authorization,
    /// The records are not in the state that the operation asks for.
    InvalidState,
    /// The caller holds too few tokens.
    InsufficientBalance,
    /// A step of the reward formula left its domain.
    Arithmetic,
}

impl ErrorCode {
    /// The family of the tag.
    pub open spec fn kind(self) -> ErrorKind {
        match self {
            ErrorCode::INVALID_MINT_AUTHORITY => ErrorKind::Authorization,
            ErrorCode::INSUFFICIANT_TOKEN_BALANCE => ErrorKind::InsufficientBalance,
            ErrorCode::ALREADY_ACTIVE_POSITION => ErrorKind::InvalidState,
            ErrorCode::NO_ACTIVE_POSITION => ErrorKind::InvalidState,
            ErrorCode::INVALID_POOL_STATE => ErrorKind::InvalidState,
            ErrorCode::REWARD_RATE_TIME_OVERFLOW => ErrorKind::Arithmetic,
            ErrorCode::STAKE_AMOUNT_MULTIPLICATION_OVERFLOW => ErrorKind::Arithmetic,
            ErrorCode::POOL_SHARE_DIVISION_ERROR => ErrorKind::Arithmetic,
            ErrorCode::SCALING_DIVISION_ERROR => ErrorKind::Arithmetic,
            ErrorCode::REWARD_AMOUNT_OVERFLOW => ErrorKind::Arithmetic,
        }
    }

    /// Tells the family of the tag.
    pub fn error_kind(&self) -> (kind: ErrorKind)
        ensures
            kind == self.kind(),
    {
        match self {
            ErrorCode::INVALID_MINT_AUTHORITY => ErrorKind::Authorization,
            ErrorCode::INSUFFICIANT_TOKEN_BALANCE => ErrorKind::InsufficientBalance,
            ErrorCode::ALREADY_ACTIVE_POSITION
            | ErrorCode::NO_ACTIVE_POSITION
            | ErrorCode::INVALID_POOL_STATE => ErrorKind::InvalidState,
            ErrorCode::REWARD_RATE_TIME_OVERFLOW
            | ErrorCode::STAKE_AMOUNT_MULTIPLICATION_OVERFLOW
            | ErrorCode::POOL_SHARE_DIVISION_ERROR
            | ErrorCode::SCALING_DIVISION_ERROR
            | ErrorCode::REWARD_AMOUNT_OVERFLOW => ErrorKind::Arithmetic,
        }
    }
}

} // verus!
