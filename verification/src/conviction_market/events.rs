//! What the conviction market reports of what it did.

use vstd::prelude::*;
use crate::pubkey::Pubkey;

verus! {

/// A market was created.
#[derive(Clone, Copy, Debug, PartialEq, Eq)]
pub struct MarketCreatedEvent {
    pub market: Pubkey,
    pub creator: Pubkey,
    pub total_shares: u64,
    pub index: u64,
}

/// Vote tokens were paid for.
#[derive(Clone, Copy, Debug, PartialEq, Eq)]
pub struct VoteTokenPurchasedEvent {
    pub vote_token: Pubkey,
    pub buyer: Pubkey,
    pub lamports_spent: u64,
}

/// Shares were bought. The amount is disclosed to the reader named at the
/// purchase, as ciphertext.
#[derive(Clone, Copy, Debug, PartialEq, Eq)]
pub struct SharesPurchasedEvent {
    pub buyer: Pubkey,
    pub encrypted_disclosed_amount: [u8; 32],
    pub nonce: u128,
}

} // verus!
