//! The records of the auction program.

use vstd::prelude::*;
use crate::pubkey::Pubkey;

verus! {

/// How the winner of an auction pays.
#[derive(Clone, Copy, Debug, PartialEq, Eq, Structural)]
pub enum AuctionType {
    /// The highest bidder pays the highest bid.
    FirstPrice,
    /// The highest bidder pays the second-highest bid.
    Vickrey,
}

/// Where an auction stands.
#[derive(Clone, Copy, Debug, PartialEq, Eq, Structural)]
pub enum AuctionStatus {
    Open,
    Closed,
    Resolved,
}

/// A sealed-bid auction. The bids are held as ciphertext.
#[derive(Clone, Copy, Debug, PartialEq, Eq)]
pub struct Auction {
    pub bump: u8,
    pub authority: Pubkey,
    pub auction_type: AuctionType,
    pub status: AuctionStatus,
    pub min_bid: u64,
    pub end_time: i64,
    pub bid_count: u8,
    pub state_nonce: u128,
    pub encrypted_state: [[u8; 32]; 5],
}

/// Where a market stands.
#[derive(Clone, Copy, Debug, PartialEq, Eq, Structural)]
pub enum MarketStatus {
    Open,
    Closed,
    Resolved,
}

/// A market and the number of its options.
#[derive(Clone, Copy, Debug, PartialEq, Eq)]
pub struct ConvictionMarket {
    pub bump: u8,
    pub creator: Pubkey,
    pub index: u64,
    pub reward_token_mint: Pubkey,
    pub reward_token_amount: u64,
    pub current_options: u8,
    pub max_options: u8,
    pub open_timestamp: Option<u64>,
    pub encrypted_state: [[u8; 32]; 10],
}

/// One option of a market and its encrypted state.
#[derive(Clone, Copy, Debug, PartialEq, Eq)]
pub struct ConvictionOption {
    pub bump: u8,
    pub option_index: u16,
    pub market: Pubkey,
    pub state_nonce: u128,
    pub encrypted_state: [[u8; 32]; 1],
    /// Set while a computation that will write this option is in flight.
    pub locked: bool,
}

/// An encrypted balance of vote tokens.
#[derive(Clone, Copy, Debug, PartialEq, Eq)]
pub struct VoteToken {
    pub bump: u8,
    pub owner: Pubkey,
    pub state_nonce: u128,
    pub encrypted_state: [[u8; 32]; 1],
    /// Set while a computation that will write this account is in flight.
    pub locked: bool,
}

/// The vault that holds the lamports paid for vote tokens.
#[derive(Clone, Copy, Debug, PartialEq, Eq)]
pub struct VoteTokenVault {
    pub bump: u8,
    /// The lamports paid in so far.
    pub bought_lamports: u64,
}

} // verus!
