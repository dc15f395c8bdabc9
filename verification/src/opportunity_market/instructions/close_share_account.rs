//! Closing a share account after the reveal window, with the owner's part of
//! the reward if the stake was on the selected option.

use vstd::prelude::*;
use crate::computation::{current_timestamp, timestamp_of, Account, TokenTransfer};
use crate::opportunity_market::error::ErrorCode;
use crate::opportunity_market::state::{OpportunityMarket, OpportunityMarketOption, ShareAccount};
use crate::pubkey::Pubkey;

verus! {

/// The accounts of [`close_share_account`].
#[derive(Debug)]
pub struct CloseShareAccount {
    pub owner: Pubkey,
    pub market: Account<OpportunityMarket>,
    pub share_account: Account<ShareAccount>,
    /// The option that `option_index` names.
    pub option: Account<OpportunityMarketOption>,
    /// The market's token account, which holds the reward.
    pub market_token_ata: Pubkey,
    /// The owner's token account, to which the reward is paid.
    pub owner_token_account: Pubkey,
}

impl CloseShareAccount {
    /// Whether the stake earns a part of the reward: it was on the selected
    /// option and has been added to the tally.
    pub open spec fn earns_reward(self) -> bool {
        &&& self.market.data.selected_option is Some
        &&& self.share_account.data.revealed_option == self.market.data.selected_option
        &&& self.share_account.data.total_incremented
    }

    /// The owner's part of the reward: the reward in the proportion of the
    /// stake's score to the option's, rounded down.
    pub open spec fn reward(self) -> int {
        (self.share_account.data.revealed_score->0 * self.market.data.reward_amount) / (
        self.option.data.total_score->0 as int)
    }

    /// Why the closing is rejected at `unix_timestamp`, if it is. The first
    /// check that fails decides. A share account is closed only when no
    /// computation on it is in flight, the stake is revealed for the option
    /// named, and the reveal window is over.
    pub open spec fn rejection(self, unix_timestamp: i64, option_index: u16) -> Option<ErrorCode> {
        let share = self.share_account.data;
        if share.locked {
            Some(ErrorCode::Locked)
        } else if share.revealed_option is None || share.revealed_amount is None {
            Some(ErrorCode::NotRevealed)
        } else if share.revealed_option != Some(option_index) {
            Some(ErrorCode::InvalidOptionIndex)
        } else if self.market.data.reveal_window_rejection() is Some {
            self.market.data.reveal_window_rejection()
        } else if timestamp_of(unix_timestamp) < self.market.data.reveal_end() {
            Some(ErrorCode::MarketNotResolved)
        } else if !self.earns_reward() {
            None
        } else if share.revealed_score is None || self.option.data.total_score is None {
            Some(ErrorCode::NotRevealed)
        } else if self.option.data.total_score == Some(0u64) || self.reward() > u64::MAX {
            Some(ErrorCode::Overflow)
        } else {
            None
        }
    }

    /// The payment an accepted closing calls for: the owner's part of the
    /// reward from the market's token account, on the market's authority;
    /// none if the stake earns nothing or its part rounds to zero.
    pub open spec fn payout(self) -> Option<TokenTransfer> {
        if self.earns_reward() && self.reward() > 0 {
            Some(
                TokenTransfer {
                    from: self.market_token_ata,
                    to: self.owner_token_account,
                    authority: self.market.key,
                    amount: self.reward() as u64,
                },
            )
        } else {
            None
        }
    }
}

/// Decides whether a share account may be closed and what its owner is
/// paid. The closing of the account itself, and the payment, are left to the
/// caller.
pub fn close_share_account(
    ctx: &CloseShareAccount,
    unix_timestamp: i64,
    option_index: u16,
    _is_option_creator: bool,
) -> (result: Result<Option<TokenTransfer>, ErrorCode>)
    ensures
        match result {
            Ok(transfer) => {
                &&& ctx.rejection(unix_timestamp, option_index) is None
                &&& transfer == ctx.payout()
            },
            Err(e) => ctx.rejection(unix_timestamp, option_index) == Some(e),
        },
{
    if ctx.share_account.data.locked {
        return Err(ErrorCode::Locked);
    }
    let revealed_option = match ctx.share_account.data.revealed_option {
        Some(option) => option,
        None => return Err(ErrorCode::NotRevealed),
    };
    if ctx.share_account.data.revealed_amount.is_none() {
        return Err(ErrorCode::NotRevealed);
    }
    if revealed_option != option_index {
        return Err(ErrorCode::InvalidOptionIndex);
    }
    let current_time = current_timestamp(unix_timestamp);
    let reveal_end = match ctx.market.data.reveal_window() {
        Ok((_, end)) => end,
        Err(e) => return Err(e),
    };
    if current_time < reveal_end {
        return Err(ErrorCode::MarketNotResolved);
    }
    let selected_option = match ctx.market.data.selected_option {
        Some(option) => option,
        None => return Ok(None),
    };
    if !(revealed_option == selected_option && ctx.share_account.data.total_incremented) {
        return Ok(None);
    }
    let user_score = match ctx.share_account.data.revealed_score {
        Some(score) => score,
        None => return Err(ErrorCode::NotRevealed),
    };
    let total_score = match ctx.option.data.total_score {
        Some(score) => score,
        None => return Err(ErrorCode::NotRevealed),
    };
    if total_score == 0 {
        return Err(ErrorCode::Overflow);
    }
    let reward_amount = ctx.market.data.reward_amount;
    assert(user_score * reward_amount <= 0xffff_ffff_ffff_ffff * 0xffff_ffff_ffff_ffff)
        by (nonlinear_arith)
        requires
            user_score <= 0xffff_ffff_ffff_ffff,
            reward_amount <= 0xffff_ffff_ffff_ffff,
    ;
    let product: u128 = (user_score as u128) * (reward_amount as u128);
    let user_reward: u128 = product / (total_score as u128);
    if user_reward > u64::MAX as u128 {
        return Err(ErrorCode::Overflow);
    }
    if user_reward > 0 {
        Ok(
            Some(
                TokenTransfer {
                    from: ctx.market_token_ata,
                    to: ctx.owner_token_account,
                    authority: ctx.market.key,
                    amount: user_reward as u64,
                },
            ),
        )
    } else {
        Ok(None)
    }
}

} // verus!
