//! Closing a share account after the reveal window, with the owner's part of
//! the reward if the stake was on the selected option.

use vstd::prelude::*;
use crate::computation::{current_timestamp, timestamp_of, Account};
use crate::conviction_market::error::ErrorCode;
use crate::conviction_market::state::{ConvictionMarket, ConvictionMarketOption, ShareAccount};
use crate::pubkey::Pubkey;

verus! {

/// The accounts of [`close_share_account`], with the lamports that the
/// reward moves.
#[derive(Debug)]
pub struct CloseShareAccount {
    pub owner: Pubkey,
    /// The lamports the owner holds.
    pub owner_lamports: u64,
    pub market: Account<ConvictionMarket>,
    /// The lamports the market holds, the reward among them.
    pub market_lamports: u64,
    pub share_account: Account<ShareAccount>,
    /// The option that `option_index` names.
    pub option: Account<ConvictionMarketOption>,
}

impl CloseShareAccount {
    /// Whether the stake earns a part of the reward: it was on the selected
    /// option and has been added to the tally.
    pub open spec fn earns_reward(self) -> bool {
        &&& self.market.data.selected_option is Some
        &&& self.share_account.data.revealed_option == self.market.data.selected_option
        &&& self.share_account.data.total_incremented
    }

    /// The owner's part of the reward: the reward in the proportion of the
    /// stake's score to the option's, rounded down.
    pub open spec fn reward(self) -> int {
        (self.share_account.data.revealed_score->0 * self.market.data.reward_lamports) / (
        self.option.data.total_score->0 as int)
    }

    /// Why the closing is rejected at `unix_timestamp`, if it is. The first
    /// check that fails decides. A share account is closed only when no
    /// computation on it is in flight.
    pub open spec fn rejection(self, unix_timestamp: i64, option_index: u16) -> Option<ErrorCode> {
        let share = self.share_account.data;
        let market = self.market.data;
        if share.locked {
            Some(ErrorCode::Locked)
        } else if share.revealed_option is None || share.revealed_amount is None {
            Some(ErrorCode::NotRevealed)
        } else if share.revealed_option != Some(option_index) {
            Some(ErrorCode::InvalidOptionIndex)
        } else if market.open_timestamp is None {
            Some(ErrorCode::MarketNotOpen)
        } else if market.reveal_end() > u64::MAX {
            Some(ErrorCode::Overflow)
        } else if timestamp_of(unix_timestamp) < market.reveal_end() {
            Some(ErrorCode::MarketNotResolved)
        } else if !self.earns_reward() {
            None
        } else if share.revealed_score is None || self.option.data.total_score is None {
            Some(ErrorCode::NotRevealed)
        } else if self.option.data.total_score == Some(0u64) || self.reward() > u64::MAX {
            Some(ErrorCode::Overflow)
        } else if self.reward() > self.market_lamports {
            Some(ErrorCode::InsufficientRewardFunding)
        } else if self.owner_lamports + self.reward() > u64::MAX {
            Some(ErrorCode::Overflow)
        } else {
            None
        }
    }

    /// The lamports an accepted closing moves from the market to the owner.
    pub open spec fn payout(self) -> int {
        if self.earns_reward() {
            self.reward()
        } else {
            0
        }
    }

    /// The accounts after an accepted closing.
    pub open spec fn closed(self) -> CloseShareAccount {
        CloseShareAccount {
            owner_lamports: (self.owner_lamports + self.payout()) as u64,
            market_lamports: (self.market_lamports - self.payout()) as u64,
            ..self
        }
    }
}

/// Decides whether a share account may be closed and pays its owner's part
/// of the reward out of the market's lamports. The closing of the account
/// itself is left to the caller. A rejected closing changes nothing.
pub fn close_share_account(
    ctx: &mut CloseShareAccount,
    unix_timestamp: i64,
    option_index: u16,
) -> (result: Result<(), ErrorCode>)
    ensures
        match result {
            Ok(_) => {
                &&& old(ctx).rejection(unix_timestamp, option_index) is None
                &&& *final(ctx) == old(ctx).closed()
            },
            Err(e) => {
                &&& old(ctx).rejection(unix_timestamp, option_index) == Some(e)
                &&& *final(ctx) == *old(ctx)
            },
        },
{
    if ctx.share_account.data.locked {
        return Err(ErrorCode::Locked);
    }
    let revealed_option = match ctx.share_account.data.revealed_option {
        Some(option) => option,
        None => return Err(ErrorCode::NotRevealed),
    };
    if ctx.share_account.data.revealed_amount.is_none() {
        return Err(ErrorCode::NotRevealed);
    }
    if revealed_option != option_index {
        return Err(ErrorCode::InvalidOptionIndex);
    }
    let current_time = current_timestamp(unix_timestamp);
    let open_timestamp = match ctx.market.data.open_timestamp {
        Some(open) => open,
        None => return Err(ErrorCode::MarketNotOpen),
    };
    let reveal_start = match open_timestamp.checked_add(ctx.market.data.time_to_stake) {
        Some(start) => start,
        None => return Err(ErrorCode::Overflow),
    };
    let reveal_end = match reveal_start.checked_add(ctx.market.data.time_to_reveal) {
        Some(end) => end,
        None => return Err(ErrorCode::Overflow),
    };
    if current_time < reveal_end {
        return Err(ErrorCode::MarketNotResolved);
    }
    let selected_option = match ctx.market.data.selected_option {
        Some(option) => option,
        None => return Ok(()),
    };
    if !(revealed_option == selected_option && ctx.share_account.data.total_incremented) {
        return Ok(());
    }
    let user_score = match ctx.share_account.data.revealed_score {
        Some(score) => score,
        None => return Err(ErrorCode::NotRevealed),
    };
    let total_score = match ctx.option.data.total_score {
        Some(score) => score,
        None => return Err(ErrorCode::NotRevealed),
    };
    if total_score == 0 {
        return Err(ErrorCode::Overflow);
    }
    let reward_lamports = ctx.market.data.reward_lamports;
    assert(user_score * reward_lamports <= 0xffff_ffff_ffff_ffff * 0xffff_ffff_ffff_ffff)
        by (nonlinear_arith)
        requires
            user_score <= 0xffff_ffff_ffff_ffff,
            reward_lamports <= 0xffff_ffff_ffff_ffff,
    ;
    let product: u128 = (user_score as u128) * (reward_lamports as u128);
    let reward: u128 = product / (total_score as u128);
    if reward > u64::MAX as u128 {
        return Err(ErrorCode::Overflow);
    }
    let user_reward = reward as u64;
    if user_reward > 0 {
        let market_lamports = match ctx.market_lamports.checked_sub(user_reward) {
            Some(lamports) => lamports,
            None => return Err(ErrorCode::InsufficientRewardFunding),
        };
        let owner_lamports = match ctx.owner_lamports.checked_add(user_reward) {
            Some(lamports) => lamports,
            None => return Err(ErrorCode::Overflow),
        };
        ctx.market_lamports = market_lamports;
        ctx.owner_lamports = owner_lamports;
    }
    Ok(())
}

} // verus!
