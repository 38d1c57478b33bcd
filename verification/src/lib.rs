//! A single-pool liquidity-staking ledger.
//!
//! Users deposit a liquidity-provider (LP) asset into a pool, accrue a reward
//! asset in proportion to their share of the pool over time, and later withdraw
//! their stake together with the accrued reward. The crate holds the records,
//! the reward arithmetic and the three operations as a state machine over plain
//! values. Moving tokens, storing records and reading the clock are left to the
//! caller: each operation takes what it needs to know as arguments and returns
//! the transfers that have to be carried out.

pub mod errors;
pub mod arith;
pub mod records;
pub mod reward;
pub mod transfer;
pub mod staking;
pub mod ledger;

pub use errors::{ErrorCode, ErrorKind};
pub use records::{Address, PoolConfig, UserStakePosition};
pub use transfer::{Authority, Holding, TransferRequest, Vault};
pub use staking::{
    initialize_pool, stake_lp_tokens, withdraw_lp_tokens, InitializePool, Stake_LP_Tokens,
    WithdrawLpTokens, Withdrawal,
};
