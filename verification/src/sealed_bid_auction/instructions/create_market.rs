//! Creating a market.

use vstd::prelude::*;
use crate::computation::Account;
use crate::pubkey::Pubkey;
use crate::sealed_bid_auction::events::MarketCreatedEvent;
use crate::sealed_bid_auction::state::ConvictionMarket;

verus! {

/// The accounts of [`create_market`]. The market is new.
#[derive(Debug)]
pub struct CreateMarket {
    pub creator: Pubkey,
    pub market: Account<ConvictionMarket>,
    /// The bump seed of the new market.
    pub market_bump: u8,
    pub reward_token_mint: Pubkey,
}

/// Fills in a new market with its creator, its index and its reward, and
/// reports it.
pub fn create_market(ctx: &mut CreateMarket, market_index: u64, reward_token_amount: u64) -> (event:
    MarketCreatedEvent)
    ensures
        *final(ctx) == (CreateMarket {
            market: Account {
                data: ConvictionMarket {
                    bump: old(ctx).market_bump,
                    creator: old(ctx).creator,
                    index: market_index,
                    reward_token_mint: old(ctx).reward_token_mint,
                    reward_token_amount,
                    ..old(ctx).market.data
                },
                ..old(ctx).market
            },
            ..*old(ctx)
        }),
        event == (MarketCreatedEvent {
            market: old(ctx).market.key,
            creator: old(ctx).creator,
            index: market_index,
        }),
{
    ctx.market.data.bump = ctx.market_bump;
    ctx.market.data.creator = ctx.creator;
    ctx.market.data.index = market_index;
    ctx.market.data.reward_token_mint = ctx.reward_token_mint;
    ctx.market.data.reward_token_amount = reward_token_amount;
    MarketCreatedEvent { market: ctx.market.key, creator: ctx.creator, index: market_index }
}

} // verus!
