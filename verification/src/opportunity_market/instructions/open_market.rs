//! Giving a funded market its opening time.

use vstd::prelude::*;
use crate::computation::{current_timestamp, timestamp_of, Account};
use crate::opportunity_market::error::ErrorCode;
use crate::opportunity_market::state::OpportunityMarket;
use crate::pubkey::Pubkey;

verus! {

/// The accounts of [`open_market`].
#[derive(Debug)]
pub struct OpenMarket {
    pub creator: Pubkey,
    pub market: Account<OpportunityMarket>,
    /// The tokens in the market's token account.
    pub market_token_ata_amount: u64,
}

impl OpenMarket {
    /// Why the opening is rejected at `unix_timestamp`, if it is. The first
    /// check that fails decides.
    pub open spec fn rejection(self, unix_timestamp: i64, open_timestamp: u64) -> Option<
        ErrorCode,
    > {
        let market = self.market.data;
        if market.creator != self.creator {
            Some(ErrorCode::Unauthorized)
        } else if market.open_timestamp is Some {
            Some(ErrorCode::MarketAlreadyOpen)
        } else if self.market_token_ata_amount < market.reward_amount {
            Some(ErrorCode::InsufficientRewardFunding)
        } else if open_timestamp <= timestamp_of(unix_timestamp) {
            Some(ErrorCode::InvalidTimestamp)
        } else {
            None
        }
    }

    /// The accounts after an accepted opening.
    pub open spec fn opened(self, open_timestamp: u64) -> OpenMarket {
        OpenMarket {
            market: Account {
                data: OpportunityMarket {
                    open_timestamp: Some(open_timestamp),
                    ..self.market.data
                },
                ..self.market
            },
            ..self
        }
    }
}

/// Sets the opening time of a market.
///
/// Accepted from the creator, once, when the market holds its reward and the
/// opening time lies in the future. A rejected opening changes nothing.
pub fn open_market(ctx: &mut OpenMarket, unix_timestamp: i64, open_timestamp: u64) -> (result:
    Result<(), ErrorCode>)
    ensures
        match result {
            Ok(_) => {
                &&& old(ctx).rejection(unix_timestamp, open_timestamp) is None
                &&& *final(ctx) == old(ctx).opened(open_timestamp)
            },
            Err(e) => {
                &&& old(ctx).rejection(unix_timestamp, open_timestamp) == Some(e)
                &&& *final(ctx) == *old(ctx)
            },
        },
{
    if ctx.market.data.creator != ctx.creator {
        return Err(ErrorCode::Unauthorized);
    }
    if ctx.market.data.open_timestamp.is_some() {
        return Err(ErrorCode::MarketAlreadyOpen);
    }
    if ctx.market_token_ata_amount < ctx.market.data.reward_amount {
        return Err(ErrorCode::InsufficientRewardFunding);
    }
    let now = current_timestamp(unix_timestamp);
    if open_timestamp <= now {
        return Err(ErrorCode::InvalidTimestamp);
    }
    ctx.market.data.open_timestamp = Some(open_timestamp);
    Ok(())
}

} // verus!
