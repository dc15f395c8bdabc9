//! Extending the reveal window of a market.

use vstd::prelude::*;
use crate::computation::{current_timestamp, timestamp_of, Account};
use crate::opportunity_market::error::ErrorCode;
use crate::opportunity_market::state::OpportunityMarket;
use crate::pubkey::Pubkey;

verus! {

/// The accounts of [`extend_reveal_period`].
#[derive(Debug)]
pub struct ExtendRevealPeriod {
    pub authority: Pubkey,
    pub market: Account<OpportunityMarket>,
}

impl ExtendRevealPeriod {
    /// Why the extension is rejected at `unix_timestamp`, if it is. The
    /// first check that fails decides.
    pub open spec fn rejection(self, unix_timestamp: i64, new_time_to_reveal: u64) -> Option<
        ErrorCode,
    > {
        let market = self.market.data;
        if !market.is_managed_by(self.authority) {
            Some(ErrorCode::Unauthorized)
        } else if market.reveal_window_rejection() is Some {
            market.reveal_window_rejection()
        } else if timestamp_of(unix_timestamp) >= market.reveal_end() {
            Some(ErrorCode::RevealPeriodEnded)
        } else if new_time_to_reveal <= market.time_to_reveal {
            Some(ErrorCode::InvalidTimestamp)
        } else {
            None
        }
    }

    /// The accounts after an accepted extension.
    pub open spec fn extended(self, new_time_to_reveal: u64) -> ExtendRevealPeriod {
        ExtendRevealPeriod {
            market: Account {
                data: OpportunityMarket { time_to_reveal: new_time_to_reveal, ..self.market.data },
                ..self.market
            },
            ..self
        }
    }
}

/// Gives a market a longer reveal window.
///
/// Accepted from the creator or the market's authority, while the window has
/// not ended, for a time longer than the current one. A rejected extension
/// changes nothing.
pub fn extend_reveal_period(
    ctx: &mut ExtendRevealPeriod,
    unix_timestamp: i64,
    new_time_to_reveal: u64,
) -> (result: Result<(), ErrorCode>)
    ensures
        match result {
            Ok(_) => {
                &&& old(ctx).rejection(unix_timestamp, new_time_to_reveal) is None
                &&& *final(ctx) == old(ctx).extended(new_time_to_reveal)
            },
            Err(e) => {
                &&& old(ctx).rejection(unix_timestamp, new_time_to_reveal) == Some(e)
                &&& *final(ctx) == *old(ctx)
            },
        },
{
    if !ctx.market.data.managed_by(&ctx.authority) {
        return Err(ErrorCode::Unauthorized);
    }
    let now = current_timestamp(unix_timestamp);
    let reveal_end = match ctx.market.data.reveal_window() {
        Ok((_, end)) => end,
        Err(e) => return Err(e),
    };
    if now >= reveal_end {
        return Err(ErrorCode::RevealPeriodEnded);
    }
    if new_time_to_reveal <= ctx.market.data.time_to_reveal {
        return Err(ErrorCode::InvalidTimestamp);
    }
    ctx.market.data.time_to_reveal = new_time_to_reveal;
    Ok(())
}

} // verus!
