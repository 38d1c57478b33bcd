use anchor_lang::prelude::Pubkey;
use liquidity_mining::{Authority, Vault};

#[test]
fn user_signs_without_seeds() {
    assert_eq!(Authority::User.signer_seeds(), Vec::<Vec<u8>>::new());
}

#[test]
fn lp_vault_authority_seeds() {
    let authority =
        Authority::VaultAuthority { vault: Vault::Lp, lp_token_mint: [7u8; 32], bump: 254 };
    assert_eq!(
        authority.signer_seeds(),
        vec![b"authority".to_vec(), b"lp".to_vec(), vec![7u8; 32], vec![254u8]]
    );
}

#[test]
fn reward_vault_authority_seeds() {
    let mut mint = [0u8; 32];
    for (i, byte) in mint.iter_mut().enumerate() {
        *byte = i as u8;
    }
    let authority =
        Authority::VaultAuthority { vault: Vault::Reward, lp_token_mint: mint, bump: 3 };
    assert_eq!(
        authority.signer_seeds(),
        vec![b"authority".to_vec(), b"reward".to_vec(), mint.to_vec(), vec![3u8]]
    );
}

#[test]
fn vault_authority_seeds_derive_the_address_that_their_bump_was_found_for() {
    let program_id = Pubkey::new_from_array([42u8; 32]);
    let mint = [7u8; 32];
    for (vault, tag) in [(Vault::Lp, &b"lp"[..]), (Vault::Reward, &b"reward"[..])] {
        let (address, bump) =
            Pubkey::find_program_address(&[b"authority", tag, &mint], &program_id);
        let seeds = Authority::VaultAuthority { vault, lp_token_mint: mint, bump }.signer_seeds();
        let seeds: Vec<&[u8]> = seeds.iter().map(Vec::as_slice).collect();
        assert_eq!(Pubkey::create_program_address(&seeds, &program_id), Ok(address));
    }
}
