//! A pool seen together with all its positions, and what holds of the two
//! whatever is done to them.
//!
//! The operations work on one position at a time. Here a pool and the
//! positions of all its users are one value, an operation is a step from one
//! such value to the next, and the laws say what every sequence of steps
//! keeps true.

use vstd::prelude::*;
use crate::errors::ErrorCode;
use crate::records::{PoolConfig, UserStakePosition};
use crate::reward::elapsed_seconds;
use crate::staking::{InitializePool, Stake_LP_Tokens, WithdrawLpTokens};

verus! {

/// The sum of the stakes of the active positions among `positions`.
pub open spec fn staked_sum(positions: Seq<UserStakePosition>) -> nat
    decreases positions.len(),
{
    if positions.len() == 0 {
        0
    } else if positions.last().is_active() {
        staked_sum(positions.drop_last()) + positions.last().amount_staked as nat
    } else {
        staked_sum(positions.drop_last())
    }
}

/// A pool and the positions of its users, each user in a slot of its own.
pub struct Ledger {
    /// The pool's record.
    pub pool: PoolConfig,
    /// The position records of the pool's users, in the order in which they
    /// were made.
    pub positions: Seq<UserStakePosition>,
}

/// One thing that happens to a ledger.
pub enum Step {
    /// A user's position record is made, empty, in a new slot.
    Open { bump: u8 },
    /// The user in `slot`, who holds `user_token_amount` LP tokens, calls
    /// `stake_lp_tokens`.
    Stake {
        slot: int,
        user_token_amount: u64,
        user_position_bump: u8,
        amount: u64,
        current_time: i64,
    },
    /// The user in `slot` calls `withdraw_lp_tokens`.
    Withdraw { slot: int, current_time: i64 },
}

impl Ledger {
    /// The ledger of a pool that was just created from `accounts`: no
    /// position exists yet.
    pub open spec fn created(accounts: InitializePool, pool_reward_rate: u64) -> Ledger {
        Ledger { pool: accounts.new_pool(pool_reward_rate), positions: Seq::empty() }
    }

    /// The pool's total equals the sum of the stakes of its positions.
    pub open spec fn balanced(self) -> bool {
        self.pool.total_staked == staked_sum(self.positions)
    }

    /// The accounts with which the user in `slot` stakes.
    pub open spec fn stake_accounts(self, slot: int, user_token_amount: u64, user_position_bump: u8)
        -> Stake_LP_Tokens {
        Stake_LP_Tokens {
            user_token_amount,
            user_position: self.positions[slot],
            pool_config: self.pool,
            user_position_bump,
        }
    }

    /// The accounts with which the user in `slot` withdraws.
    pub open spec fn withdraw_accounts(self, slot: int) -> WithdrawLpTokens {
        WithdrawLpTokens { user_position: self.positions[slot], pool_config: self.pool }
    }

    /// Whether `step` can be taken: its slot exists, and the operation's
    /// precondition holds of its accounts.
    pub open spec fn admits(self, step: Step) -> bool {
        match step {
            Step::Open { bump } => true,
            Step::Stake { slot, user_token_amount, user_position_bump, amount, current_time } => {
                &&& 0 <= slot < self.positions.len()
                &&& self.stake_accounts(slot, user_token_amount, user_position_bump).in_range(
                    amount,
                )
            },
            Step::Withdraw { slot, current_time } => {
                &&& 0 <= slot < self.positions.len()
                &&& self.withdraw_accounts(slot).in_range(current_time)
            },
        }
    }

    /// The ledger after `step`. A rejected operation leaves it as it was; an
    /// accepted one puts the records that the operation wrote in the place of
    /// those it read.
    pub open spec fn after(self, step: Step) -> Ledger {
        match step {
            Step::Open { bump } => Ledger {
                positions: self.positions.push(
                    UserStakePosition { amount_staked: 0, staked_at: 0, last_claimed: 0, bump },
                ),
                ..self
            },
            Step::Stake { slot, user_token_amount, user_position_bump, amount, current_time } => {
                let accounts = self.stake_accounts(slot, user_token_amount, user_position_bump);
                if accounts.rejection(amount) is Some {
                    self
                } else {
                    let written = accounts.staked(amount, current_time);
                    Ledger {
                        pool: written.pool_config,
                        positions: self.positions.update(slot, written.user_position),
                    }
                }
            },
            Step::Withdraw { slot, current_time } => {
                let accounts = self.withdraw_accounts(slot);
                match accounts.settlement(current_time) {
                    Err(_) => self,
                    Ok(reward) => {
                        let written = accounts.withdrawn(current_time, reward);
                        Ledger {
                            pool: written.pool_config,
                            positions: self.positions.update(slot, written.user_position),
                        }
                    },
                }
            },
        }
    }

    /// The ledger after `steps`, taken in order.
    pub open spec fn after_all(self, steps: Seq<Step>) -> Ledger
        decreases steps.len(),
    {
        if steps.len() == 0 {
            self
        } else {
            self.after_all(steps.drop_last()).after(steps.last())
        }
    }

    /// Whether `steps` can be taken in order, each from the ledger that the
    /// steps before it have left.
    pub open spec fn admits_all(self, steps: Seq<Step>) -> bool
        decreases steps.len(),
    {
        if steps.len() == 0 {
            true
        } else {
            self.admits_all(steps.drop_last()) && self.after_all(steps.drop_last()).admits(
                steps.last(),
            )
        }
    }
}

/// Putting another position in a slot changes the sum by the difference of
/// the two stakes.
pub proof fn lemma_staked_sum_update(
    positions: Seq<UserStakePosition>,
    slot: int,
    position: UserStakePosition,
)
    requires
        0 <= slot < positions.len(),
    ensures
        staked_sum(positions.update(slot, position)) == staked_sum(positions)
            - positions[slot].amount_staked + position.amount_staked,
    decreases positions.len(),
{
    let updated = positions.update(slot, position);
    if slot == positions.len() - 1 {
        assert(updated.drop_last() =~= positions.drop_last());
    } else {
        assert(updated.drop_last() =~= positions.drop_last().update(slot, position));
        lemma_staked_sum_update(positions.drop_last(), slot, position);
    }
}

/// No position holds more than all positions hold together.
pub proof fn lemma_stake_within_sum(positions: Seq<UserStakePosition>, slot: int)
    requires
        0 <= slot < positions.len(),
    ensures
        positions[slot].amount_staked <= staked_sum(positions),
    decreases positions.len(),
{
    if slot < positions.len() - 1 {
        lemma_stake_within_sum(positions.drop_last(), slot);
    }
}

/// A pool that was just created is balanced: nothing is staked in it.
pub proof fn lemma_created_is_balanced(accounts: InitializePool, pool_reward_rate: u64)
    ensures
        Ledger::created(accounts, pool_reward_rate).balanced(),
{
}

/// Every step keeps a balanced ledger balanced, whether its operation is
/// accepted or rejected.
pub proof fn lemma_step_keeps_balance(ledger: Ledger, step: Step)
    requires
        ledger.balanced(),
        ledger.admits(step),
    ensures
        ledger.after(step).balanced(),
{
    match step {
        Step::Open { bump } => {
            let empty = UserStakePosition { amount_staked: 0, staked_at: 0, last_claimed: 0, bump };
            assert(ledger.positions.push(empty).drop_last() =~= ledger.positions);
        },
        Step::Stake { slot, user_token_amount, user_position_bump, amount, current_time } => {
            let accounts = ledger.stake_accounts(slot, user_token_amount, user_position_bump);
            if accounts.rejection(amount) is None {
                lemma_staked_sum_update(
                    ledger.positions,
                    slot,
                    accounts.staked(amount, current_time).user_position,
                );
            }
        },
        Step::Withdraw { slot, current_time } => {
            let accounts = ledger.withdraw_accounts(slot);
            match accounts.settlement(current_time) {
                Err(_) => {},
                Ok(reward) => {
                    lemma_staked_sum_update(
                        ledger.positions,
                        slot,
                        accounts.withdrawn(current_time, reward).user_position,
                    );
                },
            }
        },
    }
}

/// Every sequence of steps keeps a balanced ledger balanced.
pub proof fn lemma_steps_keep_balance(ledger: Ledger, steps: Seq<Step>)
    requires
        ledger.balanced(),
        ledger.admits_all(steps),
    ensures
        ledger.after_all(steps).balanced(),
    decreases steps.len(),
{
    if steps.len() > 0 {
        lemma_steps_keep_balance(ledger, steps.drop_last());
        lemma_step_keeps_balance(ledger.after_all(steps.drop_last()), steps.last());
    }
}

/// In every state that a pool can reach from its creation, its total equals
/// the sum of the stakes of its active positions.
pub proof fn lemma_reachable_is_balanced(
    accounts: InitializePool,
    pool_reward_rate: u64,
    steps: Seq<Step>,
)
    requires
        Ledger::created(accounts, pool_reward_rate).admits_all(steps),
    ensures
        Ledger::created(accounts, pool_reward_rate).after_all(steps).balanced(),
{
    lemma_steps_keep_balance(Ledger::created(accounts, pool_reward_rate), steps);
}

/// No step changes the terms on which a pool was created: its admin, its two
/// assets, its reward rate and its offsets stay. The payout counter never
/// decreases, and no position record is ever removed.
pub proof fn lemma_step_keeps_terms(ledger: Ledger, step: Step)
    requires
        ledger.admits(step),
    ensures
        ledger.after(step).pool == (PoolConfig {
            total_staked: ledger.after(step).pool.total_staked,
            rewards_distributed: ledger.after(step).pool.rewards_distributed,
            ..ledger.pool
        }),
        ledger.after(step).pool.rewards_distributed >= ledger.pool.rewards_distributed,
        ledger.after(step).positions.len() >= ledger.positions.len(),
{
}

/// No sequence of steps changes the terms on which a pool was created, nor
/// lets its payout counter decrease.
pub proof fn lemma_steps_keep_terms(ledger: Ledger, steps: Seq<Step>)
    requires
        ledger.admits_all(steps),
    ensures
        ledger.after_all(steps).pool == (PoolConfig {
            total_staked: ledger.after_all(steps).pool.total_staked,
            rewards_distributed: ledger.after_all(steps).pool.rewards_distributed,
            ..ledger.pool
        }),
        ledger.after_all(steps).pool.rewards_distributed >= ledger.pool.rewards_distributed,
        ledger.after_all(steps).positions.len() >= ledger.positions.len(),
    decreases steps.len(),
{
    if steps.len() > 0 {
        lemma_steps_keep_terms(ledger, steps.drop_last());
        lemma_step_keeps_terms(ledger.after_all(steps.drop_last()), steps.last());
    }
}

/// In a balanced ledger an active position is backed by the pool's total:
/// the total is not zero and covers the position's stake. So a withdrawal
/// from it is never rejected for the state of the pool, and the stake can
/// always be taken out of the total.
pub proof fn lemma_active_position_is_backed(ledger: Ledger, slot: int, current_time: i64)
    requires
        ledger.balanced(),
        0 <= slot < ledger.positions.len(),
        ledger.positions[slot].is_active(),
    ensures
        0 < ledger.positions[slot].amount_staked <= ledger.pool.total_staked,
        ledger.withdraw_accounts(slot).settlement(current_time) != Err::<u64, ErrorCode>(
            ErrorCode::INVALID_POOL_STATE,
        ),
        ledger.withdraw_accounts(slot).settlement(current_time) != Err::<u64, ErrorCode>(
            ErrorCode::NO_ACTIVE_POSITION,
        ),
{
    lemma_stake_within_sum(ledger.positions, slot);
}

/// A user who stakes alone in a new pool and withdraws later is paid the
/// rate times the time staked, and leaves the pool as empty as it was found.
pub proof fn lemma_sole_staker_earns_rate_times_time(
    accounts: InitializePool,
    pool_reward_rate: u64,
    user_token_amount: u64,
    user_position_bump: u8,
    amount: u64,
    staked_at: i64,
    withdrawn_at: i64,
)
    requires
        0 < amount <= user_token_amount,
        pool_reward_rate * elapsed_seconds(withdrawn_at, staked_at) <= u64::MAX,
    ensures
        ({
            let opened = Ledger::created(accounts, pool_reward_rate).after(
                Step::Open { bump: user_position_bump },
            );
            let stake = Step::Stake {
                slot: 0,
                user_token_amount,
                user_position_bump,
                amount,
                current_time: staked_at,
            };
            let withdraw = Step::Withdraw { slot: 0, current_time: withdrawn_at };
            let closed = opened.after(stake).after(withdraw);
            &&& opened.admits(stake)
            &&& opened.after(stake).admits(withdraw)
            &&& opened.after(stake).pool.total_staked == amount
            &&& closed.pool.total_staked == 0
            &&& closed.pool.rewards_distributed == pool_reward_rate * elapsed_seconds(
                withdrawn_at,
                staked_at,
            )
            &&& closed.positions[0] == (UserStakePosition {
                amount_staked: 0,
                staked_at,
                last_claimed: withdrawn_at,
                bump: user_position_bump,
            })
        }),
{
    let rate: nat = pool_reward_rate as nat;
    let elapsed: nat = elapsed_seconds(withdrawn_at, staked_at);
    let staked: nat = amount as nat;
    assert(rate * elapsed * staked <= u128::MAX && rate * elapsed * staked / staked == rate
        * elapsed) by (nonlinear_arith)
        requires
            rate * elapsed <= 0xffff_ffff_ffff_ffff,
            0 < staked <= 0xffff_ffff_ffff_ffff,
    ;
}

} // verus!
