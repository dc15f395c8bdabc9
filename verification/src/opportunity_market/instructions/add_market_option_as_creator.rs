//! Adding an option to a market without a stake, as its creator or
//! authority.

use vstd::prelude::*;
use crate::computation::{current_timestamp, timestamp_of, Account};
use crate::opportunity_market::error::ErrorCode;
use crate::opportunity_market::state::{OpportunityMarket, OpportunityMarketOption};
use crate::pubkey::Pubkey;

verus! {

/// The accounts of [`add_market_option_as_creator`]. The option is new.
#[derive(Debug)]
pub struct AddMarketOptionAsCreator {
    pub creator: Pubkey,
    pub market: Account<OpportunityMarket>,
    pub option: Account<OpportunityMarketOption>,
    /// The bump seed of the new option.
    pub option_bump: u8,
}

impl AddMarketOptionAsCreator {
    /// Why the option is rejected at `unix_timestamp`, if it is. The first
    /// check that fails decides. A market that has not opened takes options
    /// at any time; one that has, until its staking window ends.
    pub open spec fn rejection(self, unix_timestamp: i64, option_index: u16) -> Option<ErrorCode> {
        let market = self.market.data;
        if market.selected_option is Some {
            Some(ErrorCode::WinnerAlreadySelected)
        } else if !market.is_managed_by(self.creator) {
            Some(ErrorCode::Unauthorized)
        } else if market.total_options == u16::MAX {
            Some(ErrorCode::Overflow)
        } else if option_index != market.total_options + 1 {
            Some(ErrorCode::InvalidOptionIndex)
        } else if market.open_timestamp is None {
            None
        } else if market.open_timestamp->0 + market.time_to_stake > u64::MAX {
            Some(ErrorCode::Overflow)
        } else if timestamp_of(unix_timestamp) > market.open_timestamp->0 + market.time_to_stake {
            Some(ErrorCode::StakingNotActive)
        } else {
            None
        }
    }

    /// The accounts after an accepted option: the market counts one option
    /// more and the option is filled in, without a tally.
    pub open spec fn added(self, option_index: u16, name: String) -> AddMarketOptionAsCreator {
        AddMarketOptionAsCreator {
            market: Account {
                data: OpportunityMarket { total_options: option_index, ..self.market.data },
                ..self.market
            },
            option: Account {
                data: OpportunityMarketOption {
                    bump: self.option_bump,
                    index: option_index,
                    name,
                    total_shares: None,
                    total_score: None,
                    creator: self.creator,
                    initialized: true,
                },
                ..self.option
            },
            ..self
        }
    }
}

/// Adds the next option to a market.
///
/// Accepted from the creator or the market's authority, while no winner is
/// selected and staking has not ended, for the option that is next in line.
/// A rejected option changes nothing.
pub fn add_market_option_as_creator(
    ctx: &mut AddMarketOptionAsCreator,
    unix_timestamp: i64,
    option_index: u16,
    name: String,
) -> (result: Result<(), ErrorCode>)
    ensures
        match result {
            Ok(_) => {
                &&& old(ctx).rejection(unix_timestamp, option_index) is None
                &&& *final(ctx) == old(ctx).added(option_index, name)
            },
            Err(e) => {
                &&& old(ctx).rejection(unix_timestamp, option_index) == Some(e)
                &&& *final(ctx) == *old(ctx)
            },
        },
{
    if ctx.market.data.selected_option.is_some() {
        return Err(ErrorCode::WinnerAlreadySelected);
    }
    if !ctx.market.data.managed_by(&ctx.creator) {
        return Err(ErrorCode::Unauthorized);
    }
    let next_option = match ctx.market.data.total_options.checked_add(1) {
        Some(next) => next,
        None => return Err(ErrorCode::Overflow),
    };
    if option_index != next_option {
        return Err(ErrorCode::InvalidOptionIndex);
    }
    let now = current_timestamp(unix_timestamp);
    match ctx.market.data.open_timestamp {
        Some(open_timestamp) => {
            let stake_end_timestamp = match open_timestamp.checked_add(
                ctx.market.data.time_to_stake,
            ) {
                Some(end) => end,
                None => return Err(ErrorCode::Overflow),
            };
            if now > stake_end_timestamp {
                return Err(ErrorCode::StakingNotActive);
            }
        },
        None => {},
    }
    ctx.market.data.total_options = option_index;

    ctx.option.data.bump = ctx.option_bump;
    ctx.option.data.index = option_index;
    ctx.option.data.name = name;
    ctx.option.data.total_shares = None;
    ctx.option.data.total_score = None;
    ctx.option.data.creator = ctx.creator;
    ctx.option.data.initialized = true;
    Ok(())
}

} // verus!
