//! The instruction handlers of the conviction market.

pub mod buy_market_shares;
pub mod mint_vote_tokens;
pub mod close_share_account;
pub mod open_market;
pub mod add_market_option;
