//! The records of the conviction market.

use vstd::prelude::*;
use crate::conviction_market::error::ErrorCode;
use crate::pubkey::Pubkey;

verus! {

/// A market with a limited supply of shares.
#[derive(Clone, Copy, Debug, PartialEq, Eq)]
pub struct ConvictionMarket {
    /// The shares the market can still sell, encrypted for the cluster.
    pub encrypted_available_shares: [[u8; 32]; 1],
    pub bump: u8,
    pub creator: Pubkey,
    pub index: u64,
    pub total_options: u16,
    pub max_options: u16,
    /// Set once the market is funded. Staking runs from this time for
    /// `time_to_stake` seconds, revealing for `time_to_reveal` seconds more.
    pub open_timestamp: Option<u64>,
    pub time_to_stake: u64,
    pub time_to_reveal: u64,
    pub selected_option: Option<u16>,
    /// The nonce of `encrypted_available_shares`.
    pub state_nonce: u128,
    /// The shares the market sells in all. One share costs one vote token.
    pub max_shares: u64,
    /// The reward shared among the stakers of the selected option.
    pub reward_lamports: u64,
    /// Who, besides the creator, may select the winning option.
    pub select_authority: Option<Pubkey>,
    /// Set while a computation that will write the share supply is in
    /// flight.
    pub locked: bool,
}

/// An encrypted balance of vote tokens.
#[derive(Clone, Copy, Debug, PartialEq, Eq)]
pub struct VoteTokenAccount {
    pub encrypted_state: [[u8; 32]; 1],
    pub bump: u8,
    pub owner: Pubkey,
    pub state_nonce: u128,
    /// Set while a computation that will write this account is in flight.
    pub locked: bool,
}

/// The shares of one owner in one market.
#[derive(Clone, Copy, Debug, PartialEq, Eq)]
pub struct ShareAccount {
    /// The share amount and the option, encrypted for the owner.
    pub encrypted_state: [[u8; 32]; 2],
    pub state_nonce: u128,
    pub bump: u8,
    pub owner: Pubkey,
    pub market: Pubkey,
    /// The same two values, encrypted for the reader named at the purchase.
    pub encrypted_state_disclosure: [[u8; 32]; 2],
    pub state_nonce_disclosure: u128,
    /// The time at which the purchase was queued; zero while the account
    /// holds no purchase.
    pub bought_at_timestamp: u64,
    pub revealed_amount: Option<u64>,
    pub revealed_option: Option<u16>,
    /// The revealed amount weighted by the time it was in the market.
    pub revealed_score: Option<u64>,
    pub total_incremented: bool,
    /// Set while a computation that will write this account is in flight.
    pub locked: bool,
}

/// One option of a market and its tally.
#[derive(Debug, PartialEq, Eq)]
pub struct ConvictionMarketOption {
    pub bump: u8,
    pub creator: Pubkey,
    pub name: String,
    /// The shares revealed for this option so far.
    pub total_shares: Option<u64>,
    /// The scores of those shares.
    pub total_score: Option<u64>,
}

/// The shares of one owner in one market, without a disclosure copy.
#[derive(Clone, Copy, Debug, PartialEq, Eq)]
pub struct ConvictionMarketShare {
    pub encrypted_state: [[u8; 32]; 2],
    pub bump: u8,
    pub owner: Pubkey,
    pub market: Pubkey,
    pub state_nonce: u128,
}

impl ConvictionMarket {
    /// Why `now` is no time to stake, if it is none: the market has no
    /// opening time, the end of its staking window does not fit in 64 bits,
    /// or `now` lies outside the window. Both ends of the window count.
    pub open spec fn staking_rejection(self, now: u64) -> Option<ErrorCode> {
        match self.open_timestamp {
            None => Some(ErrorCode::MarketNotOpen),
            Some(open) => if open + self.time_to_stake > u64::MAX {
                Some(ErrorCode::Overflow)
            } else if open <= now <= open + self.time_to_stake {
                None
            } else {
                Some(ErrorCode::StakingNotActive)
            },
        }
    }

    /// Checks that `now` lies in the staking window.
    pub fn require_staking_active(&self, now: u64) -> (result: Result<(), ErrorCode>)
        ensures
            match result {
                Ok(_) => self.staking_rejection(now) is None,
                Err(e) => self.staking_rejection(now) == Some(e),
            },
    {
        let open_timestamp = match self.open_timestamp {
            Some(open) => open,
            None => return Err(ErrorCode::MarketNotOpen),
        };
        let stake_end_timestamp = match open_timestamp.checked_add(self.time_to_stake) {
            Some(end) => end,
            None => return Err(ErrorCode::Overflow),
        };
        if now >= open_timestamp && now <= stake_end_timestamp {
            Ok(())
        } else {
            Err(ErrorCode::StakingNotActive)
        }
    }

    /// The second at which the reveal window ends, as a number of any size.
    pub open spec fn reveal_end(self) -> int {
        self.open_timestamp->0 + self.time_to_stake + self.time_to_reveal
    }
}

} // verus!
