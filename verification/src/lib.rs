//! Confidential prediction markets: the orchestration of encrypted accounts
//! around an external multi-party-computation cluster.
//!
//! Balances, stakes and vote shares live on the ledger as ciphertext only.
//! Every change to one of them is a pair of independent transactions: a
//! *submit* that checks the caller, locks the accounts and describes the
//! computation, and a *callback* that unlocks them and either applies the
//! cluster's verified result or rolls the submit's provisional state back.
//! Whether a result verifies is decided where the callback is delivered; the
//! handlers here are told, and say what follows for every answer.
//!
//! * [`circuits`] holds the confidential functions the cluster evaluates,
//!   written with branch-free selection ([`select`]).
//! * [`arguments`] and [`computation`] describe a queued computation.
//! * [`opportunity_market`], [`conviction_market`] and [`sealed_bid_auction`]
//!   hold the records and the instruction handlers of the three programs.
//! * [`opportunity_market::protocol`] states what holds of every submit and
//!   of every submit followed by its callback.
//!
//! A handler reads no clock and moves no token. It is handed the time and
//! the accounts as values, changes the accounts in place, and returns what is
//! left to do: the computation to queue, the tokens to transfer, the event to
//! emit. A handler that rejects leaves every account as it was.
//!
//! There is no timeout. An account whose callback never arrives stays locked.

pub mod pubkey;
pub mod select;
pub mod circuits;
pub mod arguments;
pub mod computation;
pub mod opportunity_market;
pub mod conviction_market;
pub mod sealed_bid_auction;
