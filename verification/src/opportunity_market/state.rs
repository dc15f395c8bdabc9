//! The records of the opportunity market.

use vstd::prelude::*;
use crate::opportunity_market::error::ErrorCode;
use crate::pubkey::{is_some_key, Pubkey};

verus! {

/// Settings shared by every market.
#[derive(Clone, Copy, Debug, PartialEq, Eq)]
pub struct CentralState {
    pub bump: u8,
    /// The point at which being early stops counting.
    pub earliness_cutoff_seconds: u64,
    /// Who may change these settings.
    pub authority: Pubkey,
    /// The least stake that may accompany a new option.
    pub min_option_deposit: u64,
}

/// A market: a question, its options, and the windows in which stakes are
/// taken and revealed.
#[derive(Clone, Copy, Debug, PartialEq, Eq)]
pub struct OpportunityMarket {
    /// The shares the market can still sell, encrypted for the cluster.
    pub encrypted_available_shares: [[u8; 32]; 1],
    pub bump: u8,
    pub creator: Pubkey,
    pub index: u64,
    pub total_options: u16,
    /// Set once the market is funded. Staking runs from this time for
    /// `time_to_stake` seconds, revealing for `time_to_reveal` seconds more.
    pub open_timestamp: Option<u64>,
    pub time_to_stake: u64,
    pub time_to_reveal: u64,
    pub selected_option: Option<u16>,
    /// The nonce of `encrypted_available_shares`.
    pub state_nonce: u128,
    /// The shares the market sells in all.
    pub max_shares: u64,
    /// The reward shared among the stakers of the selected option.
    pub reward_amount: u64,
    /// Who, besides the creator, may manage the market.
    pub market_authority: Option<Pubkey>,
    /// The mint of the token that is staked and paid out.
    pub mint: Pubkey,
    pub earliness_cutoff_seconds: u64,
    /// The x25519 key of the reader to whom every purchase is disclosed.
    pub authorized_reader_pubkey: [u8; 32],
    /// Set while a computation that will write the share supply is in
    /// flight.
    pub locked: bool,
}

/// An encrypted token balance.
#[derive(Clone, Copy, Debug, PartialEq, Eq)]
pub struct EncryptedTokenAccount {
    pub encrypted_state: [[u8; 32]; 1],
    pub bump: u8,
    /// Zero for an owner's regular account, anything else for an ephemeral one.
    pub index: u64,
    pub owner: Pubkey,
    pub state_nonce: u128,
    pub token_mint: Pubkey,
    pub user_pubkey: [u8; 32],
    /// Set while a computation that will write this account is in flight.
    pub locked: bool,
    /// Tokens deposited and not yet credited by a callback.
    pub pending_deposit: u64,
    /// Whether a callback has written `encrypted_state` yet.
    pub is_initialized: bool,
    /// Who paid the rent of an ephemeral account and gets it back.
    pub rent_payer: Option<Pubkey>,
}

/// An encrypted balance of vote tokens.
#[derive(Clone, Copy, Debug, PartialEq, Eq)]
pub struct VoteTokenAccount {
    pub encrypted_state: [[u8; 32]; 1],
    pub bump: u8,
    pub owner: Pubkey,
    pub state_nonce: u128,
    pub token_mint: Pubkey,
    /// Set while a computation that will write this account is in flight.
    pub locked: bool,
    /// Tokens deposited and not yet credited by a callback.
    pub pending_deposit: u64,
}

/// One stake of one owner in one market.
#[derive(Clone, Copy, Debug, PartialEq, Eq)]
pub struct ShareAccount {
    /// The share amount and the option, encrypted for the owner.
    pub encrypted_state: [[u8; 32]; 2],
    pub state_nonce: u128,
    pub bump: u8,
    pub owner: Pubkey,
    pub market: Pubkey,
    /// The same two values, encrypted for the market's reader.
    pub encrypted_state_disclosure: [[u8; 32]; 2],
    pub state_nonce_disclosure: u128,
    pub staked_at_timestamp: Option<u64>,
    pub unstaked_at_timestamp: Option<u64>,
    pub revealed_amount: Option<u64>,
    pub revealed_option: Option<u16>,
    /// The revealed amount weighted by the time it was in the market.
    pub revealed_score: Option<u64>,
    pub total_incremented: bool,
    /// Set while a computation that will write this account is in flight.
    pub locked: bool,
}

/// One option of a market and its tally.
#[derive(Debug, PartialEq, Eq)]
pub struct OpportunityMarketOption {
    pub bump: u8,
    pub index: u16,
    pub creator: Pubkey,
    pub name: String,
    /// The shares revealed for this option so far.
    pub total_shares: Option<u64>,
    /// The scores of those shares.
    pub total_score: Option<u64>,
    pub initialized: bool,
}

/// The shares of one owner in one market, before share accounts carried
/// their own disclosure copy.
#[derive(Clone, Copy, Debug, PartialEq, Eq)]
pub struct OpportunityMarketShare {
    pub encrypted_state: [[u8; 32]; 2],
    pub bump: u8,
    pub owner: Pubkey,
    pub market: Pubkey,
    pub state_nonce: u128,
}

/// The vault that holds every wrapped token.
#[derive(Clone, Copy, Debug, PartialEq, Eq)]
pub struct TokenVault {
    pub bump: u8,
    pub fund_manager: Pubkey,
}

impl OpportunityMarket {
    /// Why `now` is no time to stake, if it is none: the market has no
    /// opening time, the end of its staking window does not fit in 64 bits,
    /// or `now` lies outside the window. Both ends of the window count.
    pub open spec fn staking_rejection(self, now: u64) -> Option<ErrorCode> {
        match self.open_timestamp {
            None => Some(ErrorCode::MarketNotOpen),
            Some(open) => if open + self.time_to_stake > u64::MAX {
                Some(ErrorCode::Overflow)
            } else if open <= now <= open + self.time_to_stake {
                None
            } else {
                Some(ErrorCode::StakingNotActive)
            },
        }
    }

    /// Checks that `now` lies in the staking window.
    pub fn require_staking_active(&self, now: u64) -> (result: Result<(), ErrorCode>)
        ensures
            match result {
                Ok(_) => self.staking_rejection(now) is None,
                Err(e) => self.staking_rejection(now) == Some(e),
            },
    {
        let open_timestamp = match self.open_timestamp {
            Some(open) => open,
            None => return Err(ErrorCode::MarketNotOpen),
        };
        let stake_end_timestamp = match open_timestamp.checked_add(self.time_to_stake) {
            Some(end) => end,
            None => return Err(ErrorCode::Overflow),
        };
        if now >= open_timestamp && now <= stake_end_timestamp {
            Ok(())
        } else {
            Err(ErrorCode::StakingNotActive)
        }
    }

    /// The second at which the reveal window ends, as a number of any size.
    pub open spec fn reveal_end(self) -> int {
        self.open_timestamp->0 + self.time_to_stake + self.time_to_reveal
    }

    /// Why the market has no reveal window, if it has none: it has no
    /// opening time, or the end of the window does not fit in 64 bits.
    pub open spec fn reveal_window_rejection(self) -> Option<ErrorCode> {
        if self.open_timestamp is None {
            Some(ErrorCode::MarketNotOpen)
        } else if self.reveal_end() > u64::MAX {
            Some(ErrorCode::Overflow)
        } else {
            None
        }
    }

    /// The reveal window: its first second, which is the second in which
    /// staking ends, and its last.
    pub fn reveal_window(&self) -> (result: Result<(u64, u64), ErrorCode>)
        ensures
            match result {
                Ok((start, end)) => {
                    &&& self.reveal_window_rejection() is None
                    &&& start == self.open_timestamp->0 + self.time_to_stake
                    &&& end == self.reveal_end()
                },
                Err(e) => self.reveal_window_rejection() == Some(e),
            },
    {
        let open_timestamp = match self.open_timestamp {
            Some(open) => open,
            None => return Err(ErrorCode::MarketNotOpen),
        };
        let reveal_start = match open_timestamp.checked_add(self.time_to_stake) {
            Some(start) => start,
            None => return Err(ErrorCode::Overflow),
        };
        match reveal_start.checked_add(self.time_to_reveal) {
            Some(end) => Ok((reveal_start, end)),
            None => Err(ErrorCode::Overflow),
        }
    }

    /// Whether `key` manages the market.
    pub fn managed_by(&self, key: &Pubkey) -> (managed: bool)
        ensures
            managed == self.is_managed_by(*key),
    {
        self.creator == *key || is_some_key(&self.market_authority, key)
    }

    /// Whether `key` may manage the market: its creator or its authority.
    pub open spec fn is_managed_by(self, key: Pubkey) -> bool {
        self.creator == key || self.market_authority == Some(key)
    }
}

} // verus!
