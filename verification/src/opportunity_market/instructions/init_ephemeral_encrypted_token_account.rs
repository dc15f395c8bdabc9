//! Creating an ephemeral encrypted token account beside an owner's regular
//! one.

use vstd::prelude::*;
use crate::computation::{zeroed, Account};
use crate::opportunity_market::error::ErrorCode;
use crate::opportunity_market::state::EncryptedTokenAccount;
use crate::pubkey::Pubkey;

verus! {

/// The accounts of [`init_ephemeral_encrypted_token_account`]. The ephemeral
/// account is new.
#[derive(Debug)]
pub struct InitEphemeralEncryptedTokenAccount {
    /// Who pays the rent, and gets it back when the account is closed.
    pub signer: Pubkey,
    pub owner: Pubkey,
    pub token_mint: Pubkey,
    /// The owner's regular account.
    pub source_encrypted_token_account: Account<EncryptedTokenAccount>,
    pub ephemeral_encrypted_token_account: Account<EncryptedTokenAccount>,
    /// The bump seed of the new account.
    pub ephemeral_encrypted_token_account_bump: u8,
}

impl InitEphemeralEncryptedTokenAccount {
    /// The accounts after an accepted creation: the new account belongs to
    /// the owner, reads with the regular account's key, holds nothing and
    /// remembers who paid its rent.
    pub open spec fn created(self, index: u64) -> InitEphemeralEncryptedTokenAccount {
        InitEphemeralEncryptedTokenAccount {
            ephemeral_encrypted_token_account: Account {
                data: EncryptedTokenAccount {
                    bump: self.ephemeral_encrypted_token_account_bump,
                    index,
                    owner: self.owner,
                    token_mint: self.token_mint,
                    state_nonce: 0,
                    pending_deposit: 0,
                    locked: false,
                    user_pubkey: self.source_encrypted_token_account.data.user_pubkey,
                    encrypted_state: zeroed::<1>(),
                    rent_payer: Some(self.signer),
                    ..self.ephemeral_encrypted_token_account.data
                },
                ..self.ephemeral_encrypted_token_account
            },
            ..self
        }
    }
}

/// Fills in an ephemeral encrypted token account under `index`. Accepted
/// when the regular account named belongs to the owner named; else rejected
/// as unauthorized, with nothing changed.
pub fn init_ephemeral_encrypted_token_account(
    ctx: &mut InitEphemeralEncryptedTokenAccount,
    index: u64,
) -> (result: Result<(), ErrorCode>)
    ensures
        match result {
            Ok(_) => {
                &&& old(ctx).source_encrypted_token_account.data.owner == old(ctx).owner
                &&& *final(ctx) == old(ctx).created(index)
            },
            Err(e) => {
                &&& old(ctx).source_encrypted_token_account.data.owner != old(ctx).owner
                &&& e == ErrorCode::Unauthorized
                &&& *final(ctx) == *old(ctx)
            },
        },
{
    if ctx.source_encrypted_token_account.data.owner != ctx.owner {
        return Err(ErrorCode::Unauthorized);
    }
    ctx.ephemeral_encrypted_token_account.data.bump = ctx.ephemeral_encrypted_token_account_bump;
    ctx.ephemeral_encrypted_token_account.data.index = index;
    ctx.ephemeral_encrypted_token_account.data.owner = ctx.owner;
    ctx.ephemeral_encrypted_token_account.data.token_mint = ctx.token_mint;
    ctx.ephemeral_encrypted_token_account.data.state_nonce = 0;
    ctx.ephemeral_encrypted_token_account.data.pending_deposit = 0;
    ctx.ephemeral_encrypted_token_account.data.locked = false;
    ctx.ephemeral_encrypted_token_account.data.user_pubkey =
        ctx.source_encrypted_token_account.data.user_pubkey;
    ctx.ephemeral_encrypted_token_account.data.encrypted_state = [[0u8; 32]; 1];
    ctx.ephemeral_encrypted_token_account.data.rent_payer = Some(ctx.signer);
    Ok(())
}

} // verus!
