//! What an operation asks of the token ledger.
//!
//! The crate moves no tokens itself. An operation that succeeds returns the
//! transfers to be carried out, each naming the accounts by the part they play
//! and the authority that signs for the debit.

use vstd::prelude::*;
use vstd::slice::slice_to_vec;
use crate::records::Address;

verus! {

/// One of the two custody accounts of a pool.
#[derive(Debug, Clone, Copy, PartialEq, Eq, Structural)]
pub enum Vault {
    /// Holds the staked LP tokens.
    Lp,
    /// Holds the reward tokens that the pool pays out.
    Reward,
}

/// A token account that a transfer debits or credits.
#[derive(Debug, Clone, Copy, PartialEq, Eq, Structural)]
pub enum Holding {
    /// The user's account of the LP asset.
    UserLp,
    /// The user's account of the reward asset.
    UserReward,
    /// The pool's vault of staked LP tokens.
    LpVault,
    /// The pool's vault of reward tokens.
    RewardVault,
}

/// Who signs for a transfer.
#[derive(Debug, Clone, Copy, PartialEq, Eq)]
pub enum Authority {
    /// The user, by the signature on the request itself.
    User,
    /// The authority over one of the pool's vaults. Nobody holds a key for it:
    /// it is derived from the vault's tag, the pool's LP asset and `bump`.
    VaultAuthority { vault: Vault, lp_token_mint: Address, bump: u8 },
}

/// A transfer of `amount` tokens from one account to another.
#[derive(Debug, Clone, Copy, PartialEq, Eq)]
pub struct TransferRequest {
    /// The account that is debited.
    pub from: Holding,
    /// The account that is credited.
    pub to: Holding,
    /// The number of tokens.
    pub amount: u64,
    /// Who signs for the debit.
    pub authority: Authority,
}

/// The first seed of every vault authority: the ASCII bytes of `authority`.
pub open spec fn authority_tag() -> Seq<u8> {
    seq![97u8, 117u8, 116u8, 104u8, 111u8, 114u8, 105u8, 116u8, 121u8]
}

/// The second seed: the ASCII bytes of `lp` or of `reward`.
pub open spec fn vault_tag(vault: Vault) -> Seq<u8> {
    match vault {
        Vault::Lp => seq![108u8, 112u8],
        Vault::Reward => seq![114u8, 101u8, 119u8, 97u8, 114u8, 100u8],
    }
}

impl Authority {
    /// The seeds from which the authority is derived, in order: the two tags,
    /// the LP asset and the bump. The user has none.
    pub open spec fn seeds(self) -> Seq<Seq<u8>> {
        match self {
            Authority::User => Seq::empty(),
            Authority::VaultAuthority { vault, lp_token_mint, bump } => seq![
                authority_tag(),
                vault_tag(vault),
                lp_token_mint@,
                seq![bump],
            ],
        }
    }

    /// Builds the seeds with which the holder of this authority signs.
    pub fn signer_seeds(&self) -> (seeds: Vec<Vec<u8>>)
        ensures
            seeds.deep_view() == self.seeds(),
    {
        let mut seeds: Vec<Vec<u8>> = Vec::new();
        match self {
            Authority::User => {},
            Authority::VaultAuthority { vault, lp_token_mint, bump } => {
                seeds.push(vec![97u8, 117u8, 116u8, 104u8, 111u8, 114u8, 105u8, 116u8, 121u8]);
                match vault {
                    Vault::Lp => {
                        seeds.push(vec![108u8, 112u8]);
                    },
                    Vault::Reward => {
                        seeds.push(vec![114u8, 101u8, 119u8, 97u8, 114u8, 100u8]);
                    },
                }
                seeds.push(slice_to_vec(lp_token_mint.as_slice()));
                seeds.push(vec![*bump]);
            },
        }
        assert(seeds.deep_view() =~~= self.seeds());
        seeds
    }
}

} // verus!
