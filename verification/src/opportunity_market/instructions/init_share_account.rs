//! Creating a share account.

use vstd::prelude::*;
use crate::computation::{zeroed, Account};
use crate::opportunity_market::state::{OpportunityMarket, ShareAccount};
use crate::pubkey::Pubkey;

verus! {

/// The accounts of [`init_share_account`]. The share account is new.
#[derive(Debug)]
pub struct InitShareAccount {
    pub signer: Pubkey,
    pub market: Account<OpportunityMarket>,
    pub share_account: Account<ShareAccount>,
    /// The bump seed of the new account.
    pub share_account_bump: u8,
}

/// Fills in a share account for the signer in the market: it holds no
/// shares, nothing is revealed, and its nonce is the one given.
pub fn init_share_account(ctx: &mut InitShareAccount, state_nonce: u128, _share_account_id: u32)
    ensures
        *final(ctx) == (InitShareAccount {
            share_account: Account {
                data: ShareAccount {
                    bump: old(ctx).share_account_bump,
                    owner: old(ctx).signer,
                    market: old(ctx).market.key,
                    state_nonce,
                    state_nonce_disclosure: 0,
                    encrypted_state: zeroed::<2>(),
                    encrypted_state_disclosure: zeroed::<2>(),
                    revealed_amount: None,
                    revealed_option: None,
                    ..old(ctx).share_account.data
                },
                ..old(ctx).share_account
            },
            ..*old(ctx)
        }),
{
    ctx.share_account.data.bump = ctx.share_account_bump;
    ctx.share_account.data.owner = ctx.signer;
    ctx.share_account.data.market = ctx.market.key;
    ctx.share_account.data.state_nonce = state_nonce;
    ctx.share_account.data.state_nonce_disclosure = 0;
    ctx.share_account.data.encrypted_state = [[0u8; 32]; 2];
    ctx.share_account.data.encrypted_state_disclosure = [[0u8; 32]; 2];
    ctx.share_account.data.revealed_amount = None;
    ctx.share_account.data.revealed_option = None;
}

} // verus!
