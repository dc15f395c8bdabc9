//! Why an instruction of the opportunity market is rejected.

use vstd::prelude::*;

verus! {

#[derive(Clone, Copy, Debug, PartialEq, Eq, Structural)]
pub enum ErrorCode {
    /// Computation aborted
    AbortedComputation,
    /// Cluster not set
    ClusterNotSet,
    /// Unauthorized
    Unauthorized,
    /// Insufficient balance
    InsufficientBalance,
    /// Insufficient reward funding
    InsufficientRewardFunding,
    /// Timestamp must be in the future
    InvalidTimestamp,
    /// Market is already open
    MarketAlreadyOpen,
    /// Invalid option index
    InvalidOptionIndex,
    /// Market is not open
    MarketNotOpen,
    /// Staking period is not active
    StakingNotActive,
    /// Market winner already selected
    WinnerAlreadySelected,
    /// Shares already revealed
    AlreadyRevealed,
    /// Staking period not over
    MarketNotResolved,
    /// Shares not yet revealed
    NotRevealed,
    /// Tally already incremented for this share account
    TallyAlreadyIncremented,
    /// Arithmetic overflow
    Overflow,
    /// Reveal period has already ended
    RevealPeriodEnded,
    /// Token mint does not match market mint
    InvalidMint,
    /// Shares already unstaked
    AlreadyUnstaked,
    /// Shares already purchased for this share account
    AlreadyPurchased,
    /// Deposit amount below minimum required for option creation
    DepositBelowMinimum,
    /// Add option stake failed: insufficient balance, shares, or below minimum deposit
    AddOptionStakeFailed,
    /// Account is locked
    Locked,
    /// Invalid account state
    InvalidAccountState,
    /// Unstake delay period has not passed yet
    UnstakeDelayNotMet,
    /// Unstake has not been initiated
    UnstakeNotInitiated,
    /// Market cannot be closed before stake period ends
    ClosingEarlyNotAllowed,
}

} // verus!
