//! What holds of every submit of the auction program and of every submit
//! followed by its callback.

use vstd::prelude::*;
use crate::computation::{EncryptedOutput, VerificationFailed};
use crate::sealed_bid_auction::instructions::buy_market_shares::{
    BuyConvictionMarketSharesCallback, BuyMarketShares,
};
use crate::sealed_bid_auction::instructions::create_option::{
    CreateOption, InitOptionStateCallback,
};
use crate::sealed_bid_auction::instructions::purchase_vote_token::{
    InitVoteTokenCallback, PurchaseVoteToken,
};

verus! {

/// At most one computation in flight per balance: a purchase of shares that
/// names a locked balance is rejected, and a balance is locked from its
/// creation until its first callback and from an accepted purchase until
/// the callback of that purchase.
pub proof fn lemma_one_in_flight_per_balance(
    first: BuyMarketShares,
    second: BuyMarketShares,
    created: PurchaseVoteToken,
    lamports_to_spend: u64,
    nonce: u128,
)
    ensures
        second.user_vote_token_account.data.locked ==> second.rejection() is Some,
        first.rejection() is None ==> first.submitted().user_vote_token_account.data.locked,
        created.purchased(lamports_to_spend, nonce).vote_token.data.locked,
{
}

/// A new option is locked from its creation until its callback.
pub proof fn lemma_new_option_is_locked(ctx: CreateOption, option_index: u16, nonce: u128)
    ensures
        ctx.created(option_index, nonce).option.data.locked,
{
}

/// No stuck locks: whichever result a callback is handed, the account it is
/// scoped to is unlocked after it.
pub proof fn lemma_callbacks_unlock(
    purchase: BuyConvictionMarketSharesCallback,
    flag: Result<bool, VerificationFailed>,
    option: InitOptionStateCallback,
    balance: InitVoteTokenCallback,
    output: Result<EncryptedOutput<1>, VerificationFailed>,
)
    ensures
        !purchase.settled(flag).user_vote_token_account.data.locked,
        !option.settled(output).option.data.locked,
        !balance.settled(output).vote_token.data.locked,
{
}

/// Rollback after a purchase of shares: when the result does not verify or
/// the flag is set, the balance is again exactly what it was before the
/// purchase.
pub proof fn lemma_purchase_rolls_back(
    ctx: BuyMarketShares,
    flag: Result<bool, VerificationFailed>,
)
    requires
        ctx.rejection() is None,
        BuyConvictionMarketSharesCallback::failure(flag) is Some,
    ensures
        (BuyConvictionMarketSharesCallback {
            user_vote_token_account: ctx.submitted().user_vote_token_account,
        }).settled(flag).user_vote_token_account == ctx.user_vote_token_account,
{
}

} // verus!
