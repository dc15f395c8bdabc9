//! What the opportunity market reports of what it did.

use vstd::prelude::*;
use crate::pubkey::Pubkey;

verus! {

/// A market was created.
#[derive(Clone, Copy, Debug, PartialEq, Eq)]
pub struct MarketCreatedEvent {
    pub market: Pubkey,
    pub creator: Pubkey,
    pub index: u64,
    pub timestamp: i64,
}

/// A deposit was credited to an encrypted balance.
#[derive(Clone, Copy, Debug, PartialEq, Eq)]
pub struct EncryptedTokenWrappedEvent {
    pub encrypted_token_account: Pubkey,
    pub user: Pubkey,
    pub deposit_amount: u64,
    pub encrypted_new_balance: [u8; 32],
    pub nonce: u128,
    pub timestamp: i64,
}

/// A stake was placed.
#[derive(Clone, Copy, Debug, PartialEq, Eq)]
pub struct StakedEvent {
    pub user: Pubkey,
    pub encrypted_token_account: Pubkey,
    pub share_account: Pubkey,
    pub share_encrypted_state: [[u8; 32]; 2],
    pub share_state_nonce: u128,
    pub share_encrypted_state_disclosure: [[u8; 32]; 2],
    pub share_state_disclosure_nonce: u128,
    pub encrypted_eta_balance: [u8; 32],
    pub eta_balance_nonce: u128,
    pub timestamp: i64,
}

/// A stake was revealed and credited back.
#[derive(Clone, Copy, Debug, PartialEq, Eq)]
pub struct SharesRevealedEvent {
    pub user: Pubkey,
    pub encrypted_token_account: Pubkey,
    pub share_account: Pubkey,
    pub shares_amount: u64,
    pub selected_option: u16,
    pub encrypted_new_balance: [u8; 32],
    pub nonce: u128,
    pub timestamp: i64,
}

/// A stake was withdrawn before the staking period ended.
#[derive(Clone, Copy, Debug, PartialEq, Eq)]
pub struct SharesUnstakedEvent {
    pub user: Pubkey,
    pub market: Pubkey,
    pub encrypted_token_account: Pubkey,
    pub share_account: Pubkey,
    pub encrypted_new_balance: [u8; 32],
    pub nonce: u128,
    pub timestamp: i64,
}

/// A reveal was not applied.
#[derive(Clone, Copy, Debug, PartialEq, Eq)]
pub struct SharesRevealedError {
    pub user: Pubkey,
    pub timestamp: i64,
}

/// A stake was not placed.
#[derive(Clone, Copy, Debug, PartialEq, Eq)]
pub struct StakedError {
    pub user: Pubkey,
    pub timestamp: i64,
}

/// An early withdrawal of a stake was not applied.
#[derive(Clone, Copy, Debug, PartialEq, Eq)]
pub struct SharesUnstakedError {
    pub user: Pubkey,
    pub timestamp: i64,
}

/// A withdrawal from an encrypted balance was not applied.
#[derive(Clone, Copy, Debug, PartialEq, Eq)]
pub struct EncryptedTokensUnwrappedError {
    pub user: Pubkey,
    pub timestamp: i64,
}

/// Tokens were withdrawn from an encrypted balance.
#[derive(Clone, Copy, Debug, PartialEq, Eq)]
pub struct EncryptedTokensUnwrappedEvent {
    pub user: Pubkey,
    pub encrypted_token_account: Pubkey,
    pub amount_withdrawn: u64,
    pub encrypted_new_balance: [u8; 32],
    pub nonce: u128,
    pub timestamp: i64,
}

/// A market was given its opening time.
#[derive(Clone, Copy, Debug, PartialEq, Eq)]
pub struct MarketOpenedEvent {
    pub market: Pubkey,
    pub creator: Pubkey,
    pub open_timestamp: u64,
    pub timestamp: i64,
}

/// The winning option of a market was selected.
#[derive(Clone, Copy, Debug, PartialEq, Eq)]
pub struct OptionSelectedEvent {
    pub market: Pubkey,
    pub authority: Pubkey,
    pub selected_option: u16,
    pub timestamp: i64,
}

/// A share of the reward was paid out.
#[derive(Clone, Copy, Debug, PartialEq, Eq)]
pub struct RewardClaimedEvent {
    pub owner: Pubkey,
    pub market: Pubkey,
    pub share_account: Pubkey,
    pub option: u16,
    pub reward_amount: u64,
    pub timestamp: i64,
}

/// A revealed stake was added to its option's tally.
#[derive(Clone, Copy, Debug, PartialEq, Eq)]
pub struct TallyIncrementedEvent {
    pub owner: Pubkey,
    pub market: Pubkey,
    pub share_account: Pubkey,
    pub option: u16,
    pub revealed_amount: u64,
    pub user_score: u64,
    pub timestamp: i64,
}

/// The reveal period of a market was extended.
#[derive(Clone, Copy, Debug, PartialEq, Eq)]
pub struct RevealPeriodExtendedEvent {
    pub market: Pubkey,
    pub authority: Pubkey,
    pub new_time_to_reveal: u64,
    pub timestamp: i64,
}

/// A deposit that was never credited was paid back.
#[derive(Clone, Copy, Debug, PartialEq, Eq)]
pub struct PendingDepositClaimedEvent {
    pub user: Pubkey,
    pub encrypted_token_account: Pubkey,
    pub amount: u64,
    pub timestamp: i64,
}

/// An ephemeral balance was folded into the regular one.
#[derive(Clone, Copy, Debug, PartialEq, Eq)]
pub struct EphemeralAccountClosedEvent {
    pub user: Pubkey,
    pub encrypted_token_account: Pubkey,
    pub encrypted_new_balance: [u8; 32],
    pub nonce: u128,
    pub timestamp: i64,
}

/// An ephemeral balance was not folded into the regular one.
#[derive(Clone, Copy, Debug, PartialEq, Eq)]
pub struct EphemeralAccountClosedError {
    pub user: Pubkey,
    pub timestamp: i64,
}

/// An early withdrawal of a stake was announced.
#[derive(Clone, Copy, Debug, PartialEq, Eq)]
pub struct UnstakeInitiatedEvent {
    pub user: Pubkey,
    pub market: Pubkey,
    pub share_account: Pubkey,
    pub unstakeable_at_timestamp: u64,
    pub timestamp: i64,
}

/// An encrypted token account was created.
#[derive(Clone, Copy, Debug, PartialEq, Eq)]
pub struct EncryptedTokenAccountInitializedEvent {
    pub encrypted_token_account: Pubkey,
    pub owner: Pubkey,
    pub token_mint: Pubkey,
    pub timestamp: i64,
}

/// An ephemeral encrypted token account was created.
#[derive(Clone, Copy, Debug, PartialEq, Eq)]
pub struct EphemeralEncryptedTokenAccountInitializedEvent {
    pub encrypted_token_account: Pubkey,
    pub owner: Pubkey,
    pub token_mint: Pubkey,
    pub index: u64,
    pub rent_payer: Pubkey,
    pub timestamp: i64,
}

/// A share account was created.
#[derive(Clone, Copy, Debug, PartialEq, Eq)]
pub struct ShareAccountInitializedEvent {
    pub share_account: Pubkey,
    pub owner: Pubkey,
    pub market: Pubkey,
    pub timestamp: i64,
}

} // verus!
