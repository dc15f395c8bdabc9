//! The instruction handlers of the opportunity market.

pub mod stake;
pub mod add_market_option;
pub mod reveal_shares;
pub mod unstake_early;
pub mod unwrap_encrypted_tokens;
pub mod wrap_encrypted_tokens;
pub mod close_ephemeral_encrypted_token_account;
pub mod claim_pending_deposit;
pub mod mint_vote_tokens;
pub mod claim_vote_tokens;
pub mod init_vote_token_account;
pub mod create_market;
pub mod close_share_account;
pub mod increment_option_tally;
pub mod select_option;
pub mod extend_reveal_period;
pub mod open_market;
pub mod add_market_option_as_creator;
pub mod init_central_state;
pub mod update_central_state;
pub mod transfer_central_state_authority;
pub mod init_share_account;
pub mod init_encrypted_token_account;
pub mod init_ephemeral_encrypted_token_account;
pub mod init_token_vault;
