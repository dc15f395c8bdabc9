//! The instruction handlers of the auction program.

pub mod create_market;
pub mod create_option;
pub mod buy_market_shares;
pub mod purchase_vote_token;
