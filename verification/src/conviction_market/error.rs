//! Why an instruction of the conviction market is rejected.

use vstd::prelude::*;

verus! {

#[derive(Clone, Copy, Debug, PartialEq, Eq, Structural)]
pub enum ErrorCode {
    /// Computation aborted
    AbortedComputation,
    /// Cluster not set
    ClusterNotSet,
    /// Unauthorized
    Unauthorized,
    /// Insufficient balance
    InsufficientBalance,
    /// Insufficient reward funding
    InsufficientRewardFunding,
    /// Timestamp must be in the future
    InvalidTimestamp,
    /// Market is already open
    MarketAlreadyOpen,
    /// Invalid option index
    InvalidOptionIndex,
    /// Maximum options exceeded
    MaxOptionsExceeded,
    /// Market is not open
    MarketNotOpen,
    /// Invalid option or not enough balance
    SharePurchaseFailed,
    /// Staking period is not active
    StakingNotActive,
    /// Market winner already selected
    WinnerAlreadySelected,
    /// Shares already revealed
    AlreadyRevealed,
    /// Option index does not match encrypted value
    OptionMismatch,
    /// Staking period not over
    MarketNotResolved,
    /// Shares not yet revealed
    NotRevealed,
    /// Arithmetic overflow
    Overflow,
    /// Account is locked
    Locked,
    /// Shares already purchased for this share account
    AlreadyPurchased,
}

} // verus!
