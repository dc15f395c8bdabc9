//! Adding a revealed stake to the tally of its option.

use vstd::prelude::*;
use crate::computation::{current_timestamp, timestamp_of, Account};
use crate::opportunity_market::error::ErrorCode;
use crate::opportunity_market::state::{OpportunityMarket, OpportunityMarketOption, ShareAccount};
use crate::pubkey::Pubkey;

verus! {

/// The accounts of [`increment_option_tally`].
#[derive(Debug)]
pub struct IncrementOptionTally {
    pub signer: Pubkey,
    /// The owner of the share account. Need not be the signer.
    pub owner: Pubkey,
    pub market: Account<OpportunityMarket>,
    pub share_account: Account<ShareAccount>,
    pub option: Account<OpportunityMarketOption>,
}

/// `value`, or zero where there is none yet.
pub open spec fn or_zero(value: Option<u64>) -> int {
    match value {
        Some(v) => v as int,
        None => 0,
    }
}

impl IncrementOptionTally {
    /// The seconds from the stake to the end of staking, at least 1.
    pub open spec fn time_in_market(self) -> int {
        let start = self.market.data.open_timestamp->0 + self.market.data.time_to_stake;
        let time = start - self.share_account.data.staked_at_timestamp->0;
        if time >= 1 {
            time
        } else {
            1
        }
    }

    /// The score of the stake: its revealed amount times its time in the
    /// market.
    pub open spec fn score(self) -> int {
        self.share_account.data.revealed_amount->0 * self.time_in_market()
    }

    /// Why the tally is not incremented at `unix_timestamp`, if it is not.
    /// The first check that fails decides.
    pub open spec fn rejection(self, unix_timestamp: i64) -> Option<ErrorCode> {
        let share = self.share_account.data;
        let market = self.market.data;
        let now = timestamp_of(unix_timestamp);
        if share.total_incremented {
            Some(ErrorCode::TallyAlreadyIncremented)
        } else if market.reveal_window_rejection() is Some {
            market.reveal_window_rejection()
        } else if !(market.open_timestamp->0 + market.time_to_stake <= now <= market.reveal_end()) {
            Some(ErrorCode::MarketNotResolved)
        } else if share.revealed_amount is None {
            Some(ErrorCode::NotRevealed)
        } else if or_zero(self.option.data.total_shares) + share.revealed_amount->0 > u64::MAX {
            Some(ErrorCode::Overflow)
        } else if share.staked_at_timestamp is None {
            Some(ErrorCode::InvalidAccountState)
        } else if share.staked_at_timestamp->0 > market.open_timestamp->0 + market.time_to_stake {
            Some(ErrorCode::Overflow)
        } else if self.score() > u64::MAX {
            Some(ErrorCode::Overflow)
        } else if or_zero(self.option.data.total_score) + self.score() > u64::MAX {
            Some(ErrorCode::Overflow)
        } else {
            None
        }
    }

    /// The accounts after an accepted increment: the option's totals have
    /// grown by the stake's amount and score, and the share account records
    /// its score and that it has been counted.
    pub open spec fn incremented(self) -> IncrementOptionTally {
        IncrementOptionTally {
            option: Account {
                data: OpportunityMarketOption {
                    total_shares: Some(
                        (or_zero(self.option.data.total_shares)
                            + self.share_account.data.revealed_amount->0) as u64,
                    ),
                    total_score: Some(
                        (or_zero(self.option.data.total_score) + self.score()) as u64,
                    ),
                    ..self.option.data
                },
                ..self.option
            },
            share_account: Account {
                data: ShareAccount {
                    revealed_score: Some(self.score() as u64),
                    total_incremented: true,
                    ..self.share_account.data
                },
                ..self.share_account
            },
            ..self
        }
    }
}

/// Adds a revealed stake to the tally of its option, once.
///
/// Accepted in the reveal window, for a stake that is revealed and not
/// counted yet. Every sum and product is checked. A rejected increment
/// changes nothing.
pub fn increment_option_tally(
    ctx: &mut IncrementOptionTally,
    unix_timestamp: i64,
    _option_index: u16,
) -> (result: Result<(), ErrorCode>)
    ensures
        match result {
            Ok(_) => {
                &&& old(ctx).rejection(unix_timestamp) is None
                &&& *final(ctx) == old(ctx).incremented()
            },
            Err(e) => old(ctx).rejection(unix_timestamp) == Some(e) && *final(ctx) == *old(ctx),
        },
{
    if ctx.share_account.data.total_incremented {
        return Err(ErrorCode::TallyAlreadyIncremented);
    }
    let current_time = current_timestamp(unix_timestamp);
    let (reveal_start, reveal_end) = match ctx.market.data.reveal_window() {
        Ok(window) => window,
        Err(e) => return Err(e),
    };
    if !(current_time >= reveal_start && current_time <= reveal_end) {
        return Err(ErrorCode::MarketNotResolved);
    }
    let revealed_amount = match ctx.share_account.data.revealed_amount {
        Some(amount) => amount,
        None => return Err(ErrorCode::NotRevealed),
    };
    let current_total = match ctx.option.data.total_shares {
        Some(total) => total,
        None => 0,
    };
    let total_shares = match current_total.checked_add(revealed_amount) {
        Some(total) => total,
        None => return Err(ErrorCode::Overflow),
    };
    let staked_at_timestamp = match ctx.share_account.data.staked_at_timestamp {
        Some(staked_at) => staked_at,
        None => return Err(ErrorCode::InvalidAccountState),
    };
    let time_since_stake = match reveal_start.checked_sub(staked_at_timestamp) {
        Some(time) => time,
        None => return Err(ErrorCode::Overflow),
    };
    let user_time_in_market = if time_since_stake >= 1 {
        time_since_stake
    } else {
        1
    };
    let user_score = match revealed_amount.checked_mul(user_time_in_market) {
        Some(score) => score,
        None => return Err(ErrorCode::Overflow),
    };
    let current_total_score = match ctx.option.data.total_score {
        Some(total) => total,
        None => 0,
    };
    let total_score = match current_total_score.checked_add(user_score) {
        Some(total) => total,
        None => return Err(ErrorCode::Overflow),
    };
    ctx.option.data.total_shares = Some(total_shares);
    ctx.option.data.total_score = Some(total_score);
    ctx.share_account.data.revealed_score = Some(user_score);
    ctx.share_account.data.total_incremented = true;
    Ok(())
}

} // verus!
