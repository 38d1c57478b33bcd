use liquidity_mining::{
    initialize_pool, stake_lp_tokens, withdraw_lp_tokens, ErrorCode, Holding, InitializePool,
    PoolConfig, Stake_LP_Tokens, TransferRequest, UserStakePosition, WithdrawLpTokens,
};

const ADMIN: [u8; 32] = [11u8; 32];
const LP_MINT: [u8; 32] = [12u8; 32];
const REWARD_MINT: [u8; 32] = [13u8; 32];

/// The token balances that the transfers of one user act on.
struct Balances {
    user_lp: u64,
    user_reward: u64,
    lp_vault: u64,
    reward_vault: u64,
}

impl Balances {
    fn of(&mut self, holding: Holding) -> &mut u64 {
        match holding {
            Holding::UserLp => &mut self.user_lp,
            Holding::UserReward => &mut self.user_reward,
            Holding::LpVault => &mut self.lp_vault,
            Holding::RewardVault => &mut self.reward_vault,
        }
    }

    fn carry_out(&mut self, transfer: TransferRequest) {
        *self.of(transfer.from) -= transfer.amount;
        *self.of(transfer.to) += transfer.amount;
    }
}

fn create_pool(rate: u64) -> PoolConfig {
    let mut accounts = InitializePool {
        pool_config: PoolConfig {
            admin: [0u8; 32],
            total_staked: 0,
            rewards_distributed: 0,
            lp_token_mint: [0u8; 32],
            reward_token_mint: [0u8; 32],
            pool_reward_rate: 0,
            bump: 0,
            lp_token_authority_bump: 0,
            reward_token_authority_bump: 0,
        },
        admin: ADMIN,
        lp_mint: LP_MINT,
        lp_mint_authority: Some(ADMIN),
        reward_mint: REWARD_MINT,
        pool_config_bump: 250,
        lp_vault_authority_bump: 249,
        reward_vault_authority_bump: 248,
    };
    assert_eq!(initialize_pool(&mut accounts, rate), Ok(()));
    accounts.pool_config
}

fn empty_position() -> UserStakePosition {
    UserStakePosition { amount_staked: 0, staked_at: 0, last_claimed: 0, bump: 0 }
}

fn stake(
    pool: &mut PoolConfig,
    position: &mut UserStakePosition,
    balance: u64,
    amount: u64,
    now: i64,
) -> Result<TransferRequest, ErrorCode> {
    let mut accounts = Stake_LP_Tokens {
        user_token_amount: balance,
        user_position: *position,
        pool_config: *pool,
        user_position_bump: 7,
    };
    assert!(accounts.is_in_range(amount));
    let outcome = stake_lp_tokens(&mut accounts, amount, now);
    *pool = accounts.pool_config;
    *position = accounts.user_position;
    outcome
}

fn withdraw(
    pool: &mut PoolConfig,
    position: &mut UserStakePosition,
    now: i64,
) -> Result<u64, ErrorCode> {
    let mut accounts = WithdrawLpTokens { user_position: *position, pool_config: *pool };
    assert!(accounts.is_in_range(now));
    let outcome = withdraw_lp_tokens(&mut accounts, now);
    *pool = accounts.pool_config;
    *position = accounts.user_position;
    outcome.map(|withdrawal| withdrawal.reward_payout.amount)
}

fn sum_of_stakes(positions: &[UserStakePosition]) -> u64 {
    positions.iter().map(|position| position.amount_staked).sum()
}

#[test]
fn end_to_end() {
    let rate: u64 = 1_000_000_000;
    let mut pool = create_pool(rate);
    assert_eq!(pool.total_staked, 0);
    assert_eq!(pool.rewards_distributed, 0);
    assert_eq!(pool.pool_reward_rate, rate);

    let mut balances =
        Balances { user_lp: 250, user_reward: 5, lp_vault: 0, reward_vault: 1_000_000_000_000 };

    let mut accounts = Stake_LP_Tokens {
        user_token_amount: balances.user_lp,
        user_position: empty_position(),
        pool_config: pool,
        user_position_bump: 7,
    };
    let transfer = stake_lp_tokens(&mut accounts, 100, 0).unwrap();
    balances.carry_out(transfer);
    pool = accounts.pool_config;
    let position = accounts.user_position;
    assert_eq!(position.amount_staked, 100);
    assert_eq!(pool.total_staked, 100);
    assert_eq!(balances.user_lp, 150);
    assert_eq!(balances.lp_vault, 100);

    let mut accounts = WithdrawLpTokens { user_position: position, pool_config: pool };
    let withdrawal = withdraw_lp_tokens(&mut accounts, 100).unwrap();
    balances.carry_out(withdrawal.lp_return);
    balances.carry_out(withdrawal.reward_payout);

    // 1e9 * 100 * 100 / 100
    let reward: u64 = 100_000_000_000;
    assert_eq!(accounts.user_position.amount_staked, 0);
    assert_eq!(accounts.user_position.last_claimed, 100);
    assert_eq!(accounts.pool_config.total_staked, 0);
    assert_eq!(accounts.pool_config.rewards_distributed, reward);
    assert_eq!(balances.user_lp, 250);
    assert_eq!(balances.user_reward, 5 + reward);
    assert_eq!(balances.lp_vault, 0);
    assert_eq!(balances.reward_vault, 1_000_000_000_000 - reward);
}

#[test]
fn end_to_end_with_other_rates() {
    for rate in [0u64, 1, 7, 184_467_440_737_095_516] {
        let mut pool = create_pool(rate);
        let mut position = empty_position();
        assert!(stake(&mut pool, &mut position, 100, 100, 0).is_ok());
        assert_eq!(withdraw(&mut pool, &mut position, 100), Ok(rate * 100));
        assert_eq!(position.amount_staked, 0);
        assert_eq!(pool.total_staked, 0);
        assert_eq!(pool.rewards_distributed, rate * 100);
    }
}

#[test]
fn total_is_the_sum_of_the_stakes() {
    let mut pool = create_pool(1_000);
    let mut positions = [empty_position(); 4];
    assert_eq!(pool.total_staked, sum_of_stakes(&positions));

    assert!(stake(&mut pool, &mut positions[0], 1_000, 100, 10).is_ok());
    assert_eq!(pool.total_staked, 100);
    assert_eq!(pool.total_staked, sum_of_stakes(&positions));

    assert!(stake(&mut pool, &mut positions[1], 1_000, 300, 20).is_ok());
    assert_eq!(pool.total_staked, 400);
    assert_eq!(pool.total_staked, sum_of_stakes(&positions));

    // rejected operations change nothing
    assert_eq!(
        stake(&mut pool, &mut positions[0], 1_000, 50, 30),
        Err(ErrorCode::ALREADY_ACTIVE_POSITION)
    );
    assert_eq!(
        stake(&mut pool, &mut positions[2], 10, 50, 30),
        Err(ErrorCode::INSUFFICIANT_TOKEN_BALANCE)
    );
    assert_eq!(withdraw(&mut pool, &mut positions[3], 30), Err(ErrorCode::NO_ACTIVE_POSITION));
    assert_eq!(pool.total_staked, 400);
    assert_eq!(pool.total_staked, sum_of_stakes(&positions));

    // 1000 * 50 * 100 / 400
    assert_eq!(withdraw(&mut pool, &mut positions[0], 60), Ok(12_500));
    assert_eq!(pool.total_staked, 300);
    assert_eq!(pool.total_staked, sum_of_stakes(&positions));

    assert!(stake(&mut pool, &mut positions[2], 50, 50, 70).is_ok());
    assert_eq!(pool.total_staked, 350);
    assert_eq!(pool.total_staked, sum_of_stakes(&positions));

    // 1000 * 80 * 300 / 350 = 68571.4...
    assert_eq!(withdraw(&mut pool, &mut positions[1], 100), Ok(68_571));
    // 1000 * 30 * 50 / 50
    assert_eq!(withdraw(&mut pool, &mut positions[2], 100), Ok(30_000));
    assert_eq!(pool.total_staked, 0);
    assert_eq!(pool.total_staked, sum_of_stakes(&positions));
    assert_eq!(pool.rewards_distributed, 12_500 + 68_571 + 30_000);
    assert_eq!(pool.pool_reward_rate, 1_000);
}

#[test]
fn position_is_recycled() {
    let mut pool = create_pool(2);
    let mut position = empty_position();
    assert!(stake(&mut pool, &mut position, 10, 10, 100).is_ok());
    assert_eq!(withdraw(&mut pool, &mut position, 105), Ok(10));
    assert_eq!(
        position,
        UserStakePosition { amount_staked: 0, staked_at: 100, last_claimed: 105, bump: 7 }
    );
    assert_eq!(withdraw(&mut pool, &mut position, 110), Err(ErrorCode::NO_ACTIVE_POSITION));
    assert!(stake(&mut pool, &mut position, 10, 4, 200).is_ok());
    assert_eq!(
        position,
        UserStakePosition { amount_staked: 4, staked_at: 200, last_claimed: 200, bump: 7 }
    );
    assert_eq!(withdraw(&mut pool, &mut position, 203), Ok(6));
    assert_eq!(pool.rewards_distributed, 16);
    assert_eq!(pool.total_staked, 0);
}
