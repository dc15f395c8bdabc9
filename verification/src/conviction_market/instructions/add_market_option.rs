//! Adding an option to a market that has not opened yet.

use vstd::prelude::*;
use crate::computation::Account;
use crate::conviction_market::error::ErrorCode;
use crate::conviction_market::state::{ConvictionMarket, ConvictionMarketOption};
use crate::pubkey::Pubkey;

verus! {

/// The accounts of [`add_market_option`]. The option is new.
#[derive(Debug)]
pub struct AddMarketOption {
    pub creator: Pubkey,
    pub market: Account<ConvictionMarket>,
    pub option: Account<ConvictionMarketOption>,
    /// The bump seed of the new option.
    pub option_bump: u8,
}

impl AddMarketOption {
    /// Why the option is rejected, if it is. The first check that fails
    /// decides.
    pub open spec fn rejection(self, option_index: u16) -> Option<ErrorCode> {
        let market = self.market.data;
        if market.creator != self.creator {
            Some(ErrorCode::Unauthorized)
        } else if market.open_timestamp is Some {
            Some(ErrorCode::MarketAlreadyOpen)
        } else if market.total_options == u16::MAX {
            Some(ErrorCode::Overflow)
        } else if option_index != market.total_options + 1 {
            Some(ErrorCode::InvalidOptionIndex)
        } else if option_index > market.max_options {
            Some(ErrorCode::MaxOptionsExceeded)
        } else {
            None
        }
    }

    /// The accounts after an accepted option: the market counts one option
    /// more and the option is filled in, without a tally.
    pub open spec fn added(self, option_index: u16, name: String) -> AddMarketOption {
        AddMarketOption {
            market: Account {
                data: ConvictionMarket { total_options: option_index, ..self.market.data },
                ..self.market
            },
            option: Account {
                data: ConvictionMarketOption {
                    bump: self.option_bump,
                    name,
                    total_shares: None,
                    total_score: None,
                    creator: self.creator,
                },
                ..self.option
            },
            ..self
        }
    }
}

/// Adds the next option to a market.
///
/// Accepted from the creator, before the market opens, for the option that
/// is next in line and within the market's limit. A rejected option changes
/// nothing.
pub fn add_market_option(ctx: &mut AddMarketOption, option_index: u16, name: String) -> (result:
    Result<(), ErrorCode>)
    ensures
        match result {
            Ok(_) => {
                &&& old(ctx).rejection(option_index) is None
                &&& *final(ctx) == old(ctx).added(option_index, name)
            },
            Err(e) => old(ctx).rejection(option_index) == Some(e) && *final(ctx) == *old(ctx),
        },
{
    if ctx.market.data.creator != ctx.creator {
        return Err(ErrorCode::Unauthorized);
    }
    if ctx.market.data.open_timestamp.is_some() {
        return Err(ErrorCode::MarketAlreadyOpen);
    }
    let next_option = match ctx.market.data.total_options.checked_add(1) {
        Some(next) => next,
        None => return Err(ErrorCode::Overflow),
    };
    if option_index != next_option {
        return Err(ErrorCode::InvalidOptionIndex);
    }
    if option_index > ctx.market.data.max_options {
        return Err(ErrorCode::MaxOptionsExceeded);
    }
    ctx.market.data.total_options = option_index;

    ctx.option.data.bump = ctx.option_bump;
    ctx.option.data.name = name;
    ctx.option.data.total_shares = None;
    ctx.option.data.total_score = None;
    ctx.option.data.creator = ctx.creator;
    Ok(())
}

} // verus!
