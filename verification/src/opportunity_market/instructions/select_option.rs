//! Selecting the winning option of a market.

use vstd::prelude::*;
use crate::computation::{current_timestamp, timestamp_of, Account};
use crate::opportunity_market::error::ErrorCode;
use crate::opportunity_market::state::OpportunityMarket;
use crate::pubkey::Pubkey;

verus! {

/// The accounts of [`select_option`].
#[derive(Debug)]
pub struct SelectOption {
    pub authority: Pubkey,
    pub market: Account<OpportunityMarket>,
}

impl SelectOption {
    /// Why the selection is rejected at `unix_timestamp`, if it is. The
    /// first check that fails decides.
    pub open spec fn rejection(self, unix_timestamp: i64, option_index: u16) -> Option<ErrorCode> {
        let market = self.market.data;
        if !market.is_managed_by(self.authority) {
            Some(ErrorCode::Unauthorized)
        } else if !(1 <= option_index <= market.total_options) {
            Some(ErrorCode::InvalidOptionIndex)
        } else if market.open_timestamp is None {
            Some(ErrorCode::MarketNotOpen)
        } else if timestamp_of(unix_timestamp) < market.open_timestamp->0 {
            Some(ErrorCode::InvalidTimestamp)
        } else if market.open_timestamp->0 + market.time_to_stake > u64::MAX {
            Some(ErrorCode::Overflow)
        } else {
            None
        }
    }

    /// The staking time after the selection: if staking was still open it
    /// is cut so that it ended a second ago.
    pub open spec fn time_to_stake_after(self, unix_timestamp: i64) -> u64 {
        let market = self.market.data;
        let now = timestamp_of(unix_timestamp);
        let open = market.open_timestamp->0;
        if now < open + market.time_to_stake {
            if now - open >= 1 {
                (now - open - 1) as u64
            } else {
                0
            }
        } else {
            market.time_to_stake
        }
    }

    /// The accounts after an accepted selection.
    pub open spec fn selected(self, unix_timestamp: i64, option_index: u16) -> SelectOption {
        SelectOption {
            market: Account {
                data: OpportunityMarket {
                    time_to_stake: self.time_to_stake_after(unix_timestamp),
                    selected_option: Some(option_index),
                    ..self.market.data
                },
                ..self.market
            },
            ..self
        }
    }
}

/// Selects the winning option and, if staking is still open, ends it.
///
/// Accepted from the creator or the market's authority, for an option that
/// exists, once the market has opened. A rejected selection changes nothing.
pub fn select_option(ctx: &mut SelectOption, unix_timestamp: i64, option_index: u16) -> (result:
    Result<(), ErrorCode>)
    ensures
        match result {
            Ok(_) => {
                &&& old(ctx).rejection(unix_timestamp, option_index) is None
                &&& *final(ctx) == old(ctx).selected(unix_timestamp, option_index)
            },
            Err(e) => {
                &&& old(ctx).rejection(unix_timestamp, option_index) == Some(e)
                &&& *final(ctx) == *old(ctx)
            },
        },
{
    if !ctx.market.data.managed_by(&ctx.authority) {
        return Err(ErrorCode::Unauthorized);
    }
    if !(option_index >= 1 && option_index <= ctx.market.data.total_options) {
        return Err(ErrorCode::InvalidOptionIndex);
    }
    let open_timestamp = match ctx.market.data.open_timestamp {
        Some(open) => open,
        None => return Err(ErrorCode::MarketNotOpen),
    };
    let now = current_timestamp(unix_timestamp);
    if now < open_timestamp {
        return Err(ErrorCode::InvalidTimestamp);
    }
    let stake_end_timestamp = match open_timestamp.checked_add(ctx.market.data.time_to_stake) {
        Some(end) => end,
        None => return Err(ErrorCode::Overflow),
    };
    if now < stake_end_timestamp {
        ctx.market.data.time_to_stake = (now - open_timestamp).saturating_sub(1);
    }
    ctx.market.data.selected_option = Some(option_index);
    Ok(())
}

} // verus!
