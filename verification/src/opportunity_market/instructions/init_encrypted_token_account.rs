//! Creating an owner's regular encrypted token account.

use vstd::prelude::*;
use crate::computation::{zeroed, Account};
use crate::opportunity_market::state::EncryptedTokenAccount;
use crate::pubkey::Pubkey;

verus! {

/// The accounts of [`init_encrypted_token_account`]. The encrypted token
/// account is new.
#[derive(Debug)]
pub struct InitEncryptedTokenAccount {
    pub signer: Pubkey,
    pub token_mint: Pubkey,
    pub encrypted_token_account: Account<EncryptedTokenAccount>,
    /// The bump seed of the new account.
    pub encrypted_token_account_bump: u8,
}

/// Fills in the signer's regular encrypted token account for the mint: it
/// holds nothing, has never been written by a callback and is unlocked.
pub fn init_encrypted_token_account(ctx: &mut InitEncryptedTokenAccount, user_pubkey: [u8; 32])
    ensures
        *final(ctx) == (InitEncryptedTokenAccount {
            encrypted_token_account: Account {
                data: EncryptedTokenAccount {
                    bump: old(ctx).encrypted_token_account_bump,
                    index: 0,
                    owner: old(ctx).signer,
                    token_mint: old(ctx).token_mint,
                    state_nonce: 0,
                    pending_deposit: 0,
                    locked: false,
                    user_pubkey,
                    encrypted_state: zeroed::<1>(),
                    ..old(ctx).encrypted_token_account.data
                },
                ..old(ctx).encrypted_token_account
            },
            ..*old(ctx)
        }),
{
    ctx.encrypted_token_account.data.bump = ctx.encrypted_token_account_bump;
    ctx.encrypted_token_account.data.index = 0;
    ctx.encrypted_token_account.data.owner = ctx.signer;
    ctx.encrypted_token_account.data.token_mint = ctx.token_mint;
    ctx.encrypted_token_account.data.state_nonce = 0;
    ctx.encrypted_token_account.data.pending_deposit = 0;
    ctx.encrypted_token_account.data.locked = false;
    ctx.encrypted_token_account.data.user_pubkey = user_pubkey;
    ctx.encrypted_token_account.data.encrypted_state = [[0u8; 32]; 1];
}

} // verus!
