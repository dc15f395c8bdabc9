//! What the auction program reports of what it did.

use vstd::prelude::*;
use crate::pubkey::Pubkey;
use crate::sealed_bid_auction::state::AuctionType;

verus! {

/// An auction was created.
#[derive(Clone, Copy, Debug, PartialEq, Eq)]
pub struct AuctionCreatedEvent {
    pub auction: Pubkey,
    pub authority: Pubkey,
    pub auction_type: AuctionType,
    pub min_bid: u64,
    pub end_time: i64,
}

/// A bid was placed.
#[derive(Clone, Copy, Debug, PartialEq, Eq)]
pub struct BidPlacedEvent {
    pub auction: Pubkey,
    pub bid_count: u8,
}

/// An auction was closed to bids.
#[derive(Clone, Copy, Debug, PartialEq, Eq)]
pub struct AuctionClosedEvent {
    pub auction: Pubkey,
    pub bid_count: u8,
}

/// The winner of an auction was determined.
#[derive(Clone, Copy, Debug, PartialEq, Eq)]
pub struct AuctionResolvedEvent {
    pub auction: Pubkey,
    pub winner: [u8; 32],
    pub payment_amount: u64,
    pub auction_type: AuctionType,
}

/// A market was created.
#[derive(Clone, Copy, Debug, PartialEq, Eq)]
pub struct MarketCreatedEvent {
    pub market: Pubkey,
    pub creator: Pubkey,
    pub index: u64,
}

} // verus!
