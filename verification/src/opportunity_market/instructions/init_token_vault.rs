//! Creating the vault that holds every wrapped token.

use vstd::prelude::*;
use crate::computation::Account;
use crate::opportunity_market::state::TokenVault;
use crate::pubkey::Pubkey;

verus! {

/// The accounts of [`init_token_vault`]. The vault is new.
#[derive(Debug)]
pub struct InitTokenVault {
    pub payer: Pubkey,
    pub token_vault: Account<TokenVault>,
    /// The bump seed of the new account.
    pub token_vault_bump: u8,
}

/// Fills in the token vault with its bump seed and its fund manager.
pub fn init_token_vault(ctx: &mut InitTokenVault, fund_manager: Pubkey)
    ensures
        *final(ctx) == (InitTokenVault {
            token_vault: Account {
                data: TokenVault { bump: old(ctx).token_vault_bump, fund_manager },
                ..old(ctx).token_vault
            },
            ..*old(ctx)
        }),
{
    ctx.token_vault.data.bump = ctx.token_vault_bump;
    ctx.token_vault.data.fund_manager = fund_manager;
}

} // verus!
