//! Why an instruction of the auction program is rejected.

use vstd::prelude::*;

verus! {

#[derive(Clone, Copy, Debug, PartialEq, Eq, Structural)]
pub enum ErrorCode {
    /// The computation was aborted
    AbortedComputation,
    /// Cluster not set
    ClusterNotSet,
    /// Auction is not open for bidding
    AuctionNotOpen,
    /// Auction is not closed yet
    AuctionNotClosed,
    /// Wrong auction type for this operation
    WrongAuctionType,
    /// Unauthorized
    Unauthorized,
    /// Maximum number of options reached for this market
    MaxOptionsReached,
    /// Invalid option index - must be current_options + 1
    InvalidOptionIndex,
    /// Market is not open
    MarketNotOpen,
    /// Invalid option or not enough balance
    SharePurchaseFailed,
    /// Arithmetic overflow
    Overflow,
    /// Account is locked
    Locked,
}

} // verus!
