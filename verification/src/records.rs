//! The two records that the ledger keeps: one per pool, one per user and pool.

use vstd::prelude::*;

verus! {

/// The identity of an account: a user, an asset type or a derived authority.
pub type Address = [u8; 32];

/// Whether two addresses are the same.
pub fn same_address(a: &Address, b: &Address) -> (same: bool)
    ensures
        same == (*a == *b),
{
    let mut i: usize = 0;
    while i < 32
        invariant
            i <= 32,
            forall|j: int| 0 <= j < i ==> a[j] == b[j],
        decreases 32 - i,
    {
        if a[i] != b[i] {
            return false;
        }
        i = i + 1;
    }
    assert(*a =~= *b);
    true
}

/// One user's stake in a pool.
///
/// The record is made when the user first stakes and is never deleted: a
/// withdrawal empties it and a later stake fills it again.
#[derive(Debug, Clone, Copy, PartialEq, Eq)]
pub struct UserStakePosition {
    /// The staked LP amount; zero means that the slot holds no stake.
    pub amount_staked: u64,
    /// When the stake was made.
    pub staked_at: i64,
    /// When the reward was last settled; at first the time of the stake.
    pub last_claimed: i64,
    /// The offset from which the record's identifier is derived.
    pub bump: u8,
}

impl UserStakePosition {
    /// The bytes that the record's fields take when stored.
    pub const INIT_SPACE: usize = 8 + 8 + 8 + 1;

    /// The bytes of a stored record: an eight-byte tag followed by the fields.
    pub const LEN: usize = 8 + Self::INIT_SPACE;

    /// Whether the position holds a stake.
    pub open spec fn is_active(self) -> bool {
        self.amount_staked > 0
    }
}

/// The state of one pool: one LP asset, one reward asset, one reward rate.
#[derive(Debug, Clone, Copy, PartialEq, Eq)]
pub struct PoolConfig {
    /// Who created the pool: the mint authority of the LP asset at that time.
    pub admin: Address,
    /// The sum of the stakes of the pool's active positions.
    pub total_staked: u64,
    /// The reward paid out so far; it never decreases.
    pub rewards_distributed: u64,
    /// The LP asset.
    pub lp_token_mint: Address,
    /// The reward asset.
    pub reward_token_mint: Address,
    /// Reward units per second per staked unit, scaled by 10^9; fixed when
    /// the pool is created.
    pub pool_reward_rate: u64,
    /// The offset from which the record's identifier is derived.
    pub bump: u8,
    /// The offset from which the authority over the LP vault is derived.
    pub lp_token_authority_bump: u8,
    /// The offset from which the authority over the reward vault is derived.
    pub reward_token_authority_bump: u8,
}

impl PoolConfig {
    /// The bytes that the record's fields take when stored.
    pub const INIT_SPACE: usize = 32 + 8 + 8 + 32 + 32 + 8 + 1 + 1 + 1;

    /// The bytes of a stored record: an eight-byte tag followed by the fields.
    pub const LEN: usize = 8 + Self::INIT_SPACE;
}

} // verus!
