//! The three operations: creating a pool, staking and withdrawing.
//!
//! Each operation works on the accounts it is handed: it checks them, changes
//! the records they hold, and returns the transfers that belong to the change.
//! A rejected operation changes nothing. The accounts, the transfers and the
//! current time are plain values: the caller reads the accounts from the
//! record store and the time from the clock, carries the transfers out on the
//! token ledger, and stores the records.

use vstd::prelude::*;
use crate::errors::ErrorCode;
use crate::records::{same_address, Address, PoolConfig, UserStakePosition};
use crate::reward::{accrued_reward, reward_owed};
use crate::transfer::{Authority, Holding, TransferRequest, Vault};

verus! {

/// The accounts of `initialize_pool`.
#[derive(Debug, Clone, Copy, PartialEq, Eq)]
pub struct InitializePool {
    /// The record of the pool that is being created.
    pub pool_config: PoolConfig,
    /// The caller, who becomes the pool's admin.
    pub admin: Address,
    /// The LP asset.
    pub lp_mint: Address,
    /// The mint authority recorded for the LP asset, if it has one.
    pub lp_mint_authority: Option<Address>,
    /// The reward asset.
    pub reward_mint: Address,
    /// The offset of the pool record's identifier.
    pub pool_config_bump: u8,
    /// The offset of the authority over the LP vault.
    pub lp_vault_authority_bump: u8,
    /// The offset of the authority over the reward vault.
    pub reward_vault_authority_bump: u8,
}

impl InitializePool {
    /// Whether the caller holds the mint authority over the LP asset.
    pub open spec fn admin_is_mint_authority(self) -> bool {
        self.lp_mint_authority == Some(self.admin)
    }

    /// The record of a pool created from these accounts with the given rate:
    /// nothing staked and nothing paid out yet.
    pub open spec fn new_pool(self, pool_reward_rate: u64) -> PoolConfig {
        PoolConfig {
            admin: self.admin,
            total_staked: 0,
            rewards_distributed: 0,
            lp_token_mint: self.lp_mint,
            reward_token_mint: self.reward_mint,
            pool_reward_rate,
            bump: self.pool_config_bump,
            lp_token_authority_bump: self.lp_vault_authority_bump,
            reward_token_authority_bump: self.reward_vault_authority_bump,
        }
    }
}

/// Creates the pool for an LP asset.
///
/// Only the mint authority of the LP asset may do so. No tokens move.
pub fn initialize_pool(ctx: &mut InitializePool, pool_reward_rate: u64) -> (res: Result<
    (),
    ErrorCode,
>)
    ensures
        old(ctx).admin_is_mint_authority() ==> {
            &&& res is Ok
            &&& *final(ctx) == (InitializePool {
                pool_config: old(ctx).new_pool(pool_reward_rate),
                ..*old(ctx)
            })
        },
        !old(ctx).admin_is_mint_authority() ==> {
            &&& res == Err::<(), ErrorCode>(ErrorCode::INVALID_MINT_AUTHORITY)
            &&& *final(ctx) == *old(ctx)
        },
{
    let authorized: bool = match &ctx.lp_mint_authority {
        Some(authority) => same_address(authority, &ctx.admin),
        None => false,
    };
    if !authorized {
        return Err(ErrorCode::INVALID_MINT_AUTHORITY);
    }
    ctx.pool_config.admin = ctx.admin;
    ctx.pool_config.lp_token_mint = ctx.lp_mint;
    ctx.pool_config.reward_token_mint = ctx.reward_mint;

    ctx.pool_config.total_staked = 0;
    ctx.pool_config.rewards_distributed = 0;
    ctx.pool_config.pool_reward_rate = pool_reward_rate;

    ctx.pool_config.bump = ctx.pool_config_bump;
    ctx.pool_config.lp_token_authority_bump = ctx.lp_vault_authority_bump;
    ctx.pool_config.reward_token_authority_bump = ctx.reward_vault_authority_bump;

    Ok(())
}

/// The accounts of `stake_lp_tokens`.
#[allow(non_camel_case_types)]
#[derive(Debug, Clone, Copy, PartialEq, Eq)]
pub struct Stake_LP_Tokens {
    /// The balance of the user's LP account.
    pub user_token_amount: u64,
    /// The user's position in the pool; all zero if the user never staked.
    pub user_position: UserStakePosition,
    /// The pool.
    pub pool_config: PoolConfig,
    /// The offset of the position record's identifier.
    pub user_position_bump: u8,
}

/// The transfer that a stake of `amount` asks for: from the user's LP
/// account into the LP vault, signed by the user.
pub open spec fn stake_transfer(amount: u64) -> TransferRequest {
    TransferRequest {
        from: Holding::UserLp,
        to: Holding::LpVault,
        amount,
        authority: Authority::User,
    }
}

impl Stake_LP_Tokens {
    /// Why a stake of `amount` is rejected, if it is. The position must be
    /// empty, and the user must hold the amount; the checks are made in this
    /// order.
    pub open spec fn rejection(self, amount: u64) -> Option<ErrorCode> {
        if self.user_position.amount_staked != 0 {
            Some(ErrorCode::ALREADY_ACTIVE_POSITION)
        } else if self.user_token_amount < amount {
            Some(ErrorCode::INSUFFICIANT_TOKEN_BALANCE)
        } else {
            None
        }
    }

    /// The accounts after a stake of `amount` at `current_time`: the position
    /// holds the amount and both its timestamps are the current time; the
    /// pool's total has grown by the amount.
    pub open spec fn staked(self, amount: u64, current_time: i64) -> Stake_LP_Tokens {
        Stake_LP_Tokens {
            user_position: UserStakePosition {
                amount_staked: amount,
                staked_at: current_time,
                last_claimed: current_time,
                bump: self.user_position_bump,
            },
            pool_config: PoolConfig {
                total_staked: (self.pool_config.total_staked + amount) as u64,
                ..self.pool_config
            },
            ..self
        }
    }

    /// Whether the pool's total can take a stake of `amount`: an accepted
    /// stake must leave the total within 64 bits.
    pub open spec fn in_range(self, amount: u64) -> bool {
        self.rejection(amount) is None ==> self.pool_config.total_staked + amount <= u64::MAX
    }

    /// Tests `in_range`.
    pub fn is_in_range(&self, amount: u64) -> (ok: bool)
        ensures
            ok == self.in_range(amount),
    {
        self.user_position.amount_staked != 0 || self.user_token_amount < amount
            || amount <= u64::MAX - self.pool_config.total_staked
    }
}

/// Stakes `amount` LP tokens at `current_time`.
///
/// The position must be empty: a stake cannot be topped up. A rejected stake
/// leaves the accounts as they were. An accepted one returns the transfer to
/// carry out.
pub fn stake_lp_tokens(ctx: &mut Stake_LP_Tokens, amount: u64, current_time: i64) -> (res: Result<
    TransferRequest,
    ErrorCode,
>)
    requires
        old(ctx).in_range(amount),
    ensures
        match old(ctx).rejection(amount) {
            Some(e) => {
                &&& res == Err::<TransferRequest, ErrorCode>(e)
                &&& *final(ctx) == *old(ctx)
            },
            None => {
                &&& res == Ok::<TransferRequest, ErrorCode>(stake_transfer(amount))
                &&& *final(ctx) == old(ctx).staked(amount, current_time)
            },
        },
        old(ctx).user_position.is_active() ==> {
            &&& res == Err::<TransferRequest, ErrorCode>(ErrorCode::ALREADY_ACTIVE_POSITION)
            &&& *final(ctx) == *old(ctx)
        },
        res is Ok ==> !old(ctx).user_position.is_active(),
        res is Ok && amount > 0 ==> final(ctx).user_position.is_active(),
{
    if ctx.user_position.amount_staked != 0 {
        return Err(ErrorCode::ALREADY_ACTIVE_POSITION);
    }
    if ctx.user_token_amount < amount {
        return Err(ErrorCode::INSUFFICIANT_TOKEN_BALANCE);
    }
    let transfer = TransferRequest {
        from: Holding::UserLp,
        to: Holding::LpVault,
        amount,
        authority: Authority::User,
    };

    ctx.user_position.staked_at = current_time;
    ctx.user_position.last_claimed = current_time;

    ctx.user_position.amount_staked = amount;
    ctx.user_position.bump = ctx.user_position_bump;

    ctx.pool_config.total_staked = ctx.pool_config.total_staked + amount;

    Ok(transfer)
}

/// The accounts of `withdraw_lp_tokens`.
#[derive(Debug, Clone, Copy, PartialEq, Eq)]
pub struct WithdrawLpTokens {
    /// The user's position in the pool.
    pub user_position: UserStakePosition,
    /// The pool.
    pub pool_config: PoolConfig,
}

/// The two transfers of a withdrawal, to be carried out in this order.
#[derive(Debug, Clone, Copy, PartialEq, Eq)]
pub struct Withdrawal {
    /// The whole stake, from the LP vault back to the user.
    pub lp_return: TransferRequest,
    /// The reward, from the reward vault to the user.
    pub reward_payout: TransferRequest,
}

impl Withdrawal {
    /// The two transfers in the order in which they are to be carried out:
    /// first the stake, then the reward.
    pub fn in_order(&self) -> (transfers: [TransferRequest; 2])
        ensures
            transfers@ == seq![self.lp_return, self.reward_payout],
    {
        let transfers = [self.lp_return, self.reward_payout];
        transfers
    }
}

impl WithdrawLpTokens {
    /// The reward that a withdrawal at `current_time` pays, or why the
    /// withdrawal is rejected. The position must hold a stake, the pool's
    /// total must not be zero, and the reward must be computable; the checks
    /// are made in this order.
    pub open spec fn settlement(self, current_time: i64) -> Result<u64, ErrorCode> {
        if self.user_position.amount_staked == 0 {
            Err(ErrorCode::NO_ACTIVE_POSITION)
        } else if self.pool_config.total_staked == 0 {
            Err(ErrorCode::INVALID_POOL_STATE)
        } else {
            reward_owed(self.pool_config, self.user_position, current_time)
        }
    }

    /// The transfers of a withdrawal that pays `reward`: the stake out of the
    /// LP vault and the reward out of the reward vault, each signed by the
    /// authority derived for that vault.
    pub open spec fn transfers(self, reward: u64) -> Withdrawal {
        Withdrawal {
            lp_return: TransferRequest {
                from: Holding::LpVault,
                to: Holding::UserLp,
                amount: self.user_position.amount_staked,
                authority: Authority::VaultAuthority {
                    vault: Vault::Lp,
                    lp_token_mint: self.pool_config.lp_token_mint,
                    bump: self.pool_config.lp_token_authority_bump,
                },
            },
            reward_payout: TransferRequest {
                from: Holding::RewardVault,
                to: Holding::UserReward,
                amount: reward,
                authority: Authority::VaultAuthority {
                    vault: Vault::Reward,
                    lp_token_mint: self.pool_config.lp_token_mint,
                    bump: self.pool_config.reward_token_authority_bump,
                },
            },
        }
    }

    /// The accounts after a withdrawal at `current_time` that pays `reward`:
    /// the position is empty and settled at the current time; the pool's total
    /// has shrunk by the stake and its payout counter has grown by the reward.
    pub open spec fn withdrawn(self, current_time: i64, reward: u64) -> WithdrawLpTokens {
        WithdrawLpTokens {
            user_position: UserStakePosition {
                amount_staked: 0,
                last_claimed: current_time,
                ..self.user_position
            },
            pool_config: PoolConfig {
                total_staked: (self.pool_config.total_staked
                    - self.user_position.amount_staked) as u64,
                rewards_distributed: (self.pool_config.rewards_distributed + reward) as u64,
                ..self.pool_config
            },
        }
    }

    /// Whether the pool's counters can take a withdrawal at `current_time`:
    /// an accepted withdrawal must find the stake within the pool's total, and
    /// must leave the payout counter within 64 bits.
    pub open spec fn in_range(self, current_time: i64) -> bool {
        self.settlement(current_time) matches Ok(reward) ==> {
            &&& self.user_position.amount_staked <= self.pool_config.total_staked
            &&& self.pool_config.rewards_distributed + reward <= u64::MAX
        }
    }

    /// Tests `in_range`.
    pub fn is_in_range(&self, current_time: i64) -> (ok: bool)
        ensures
            ok == self.in_range(current_time),
    {
        if self.user_position.amount_staked == 0 || self.pool_config.total_staked == 0 {
            return true;
        }
        match accrued_reward(&self.pool_config, &self.user_position, current_time) {
            Ok(reward) => self.user_position.amount_staked <= self.pool_config.total_staked
                && reward <= u64::MAX - self.pool_config.rewards_distributed,
            Err(_) => true,
        }
    }
}

/// Withdraws the whole stake of a position, with the reward it has earned
/// since it was last settled, at `current_time`.
///
/// Every check is made, and the reward computed, before anything changes: a
/// rejected withdrawal leaves the accounts as they were. An accepted one
/// returns the two transfers to carry out. Where the clock has gone back
/// behind the last settlement, the stake is returned with a reward of zero.
pub fn withdraw_lp_tokens(ctx: &mut WithdrawLpTokens, current_time: i64) -> (res: Result<
    Withdrawal,
    ErrorCode,
>)
    requires
        old(ctx).in_range(current_time),
    ensures
        match old(ctx).settlement(current_time) {
            Err(e) => {
                &&& res == Err::<Withdrawal, ErrorCode>(e)
                &&& *final(ctx) == *old(ctx)
            },
            Ok(reward) => {
                &&& res == Ok::<Withdrawal, ErrorCode>(old(ctx).transfers(reward))
                &&& *final(ctx) == old(ctx).withdrawn(current_time, reward)
            },
        },
        !old(ctx).user_position.is_active() ==> {
            &&& res == Err::<Withdrawal, ErrorCode>(ErrorCode::NO_ACTIVE_POSITION)
            &&& *final(ctx) == *old(ctx)
        },
        old(ctx).user_position.is_active() && old(ctx).pool_config.total_staked == 0 ==> {
            &&& res == Err::<Withdrawal, ErrorCode>(ErrorCode::INVALID_POOL_STATE)
            &&& *final(ctx) == *old(ctx)
        },
        old(ctx).user_position.is_active() && old(ctx).pool_config.total_staked > 0
            && current_time <= old(ctx).user_position.last_claimed ==> {
            &&& res == Ok::<Withdrawal, ErrorCode>(old(ctx).transfers(0))
            &&& *final(ctx) == old(ctx).withdrawn(current_time, 0)
        },
        res is Ok ==> old(ctx).user_position.is_active() && !final(ctx).user_position.is_active(),
{
    if ctx.user_position.amount_staked == 0 {
        return Err(ErrorCode::NO_ACTIVE_POSITION);
    }
    let staked_amount: u64 = ctx.user_position.amount_staked;

    if ctx.pool_config.total_staked == 0 {
        return Err(ErrorCode::INVALID_POOL_STATE);
    }
    let reward_amount: u64 = match accrued_reward(
        &ctx.pool_config,
        &ctx.user_position,
        current_time,
    ) {
        Ok(reward_amount) => reward_amount,
        Err(e) => { return Err(e); },
    };

    let lp_return = TransferRequest {
        from: Holding::LpVault,
        to: Holding::UserLp,
        amount: staked_amount,
        authority: Authority::VaultAuthority {
            vault: Vault::Lp,
            lp_token_mint: ctx.pool_config.lp_token_mint,
            bump: ctx.pool_config.lp_token_authority_bump,
        },
    };
    let reward_payout = TransferRequest {
        from: Holding::RewardVault,
        to: Holding::UserReward,
        amount: reward_amount,
        authority: Authority::VaultAuthority {
            vault: Vault::Reward,
            lp_token_mint: ctx.pool_config.lp_token_mint,
            bump: ctx.pool_config.reward_token_authority_bump,
        },
    };

    ctx.pool_config.total_staked = ctx.pool_config.total_staked - staked_amount;
    ctx.pool_config.rewards_distributed = ctx.pool_config.rewards_distributed + reward_amount;

    ctx.user_position.amount_staked = 0;
    ctx.user_position.last_claimed = current_time;

    Ok(Withdrawal { lp_return, reward_payout })
}

} // verus!
