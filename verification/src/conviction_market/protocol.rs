//! What holds of every submit of the conviction market and of every submit
//! followed by its callback.

use vstd::prelude::*;
use crate::computation::{timestamp_of, VerificationFailed};
use crate::conviction_market::instructions::buy_market_shares::{
    BuyConvictionMarketSharesCallback, BuyConvictionMarketSharesOutput, BuyMarketShares,
};
use crate::conviction_market::instructions::mint_vote_tokens::{
    CalculateVoteTokenBalanceCallback, CalculateVoteTokenBalanceOutput, MintVoteTokens,
};

verus! {

/// A purchase of shares that names a locked market, balance or share account
/// is rejected, and a trade of vote tokens that names a locked balance is.
pub proof fn lemma_locked_account_is_refused(
    purchase: BuyMarketShares,
    unix_timestamp: i64,
    trade: MintVoteTokens,
    trade_amount: u64,
    price: u64,
)
    ensures
        purchase.market.data.locked || purchase.user_vta.data.locked
            || purchase.share_account.data.locked ==> purchase.rejection(unix_timestamp) is Some,
        trade.vote_token_account.data.locked ==> trade.rejection(trade_amount, price) is Some,
{
}

/// At most one computation in flight per account: once a purchase of shares
/// is accepted, a second purchase that finds the market, the balance or the
/// share account as the first one left it is rejected, and so is a trade of
/// vote tokens that finds the balance so.
pub proof fn lemma_one_in_flight_after_a_purchase(
    first: BuyMarketShares,
    first_timestamp: i64,
    second: BuyMarketShares,
    second_timestamp: i64,
    trade: MintVoteTokens,
    trade_amount: u64,
    price: u64,
)
    requires
        first.rejection(first_timestamp) is None,
    ensures
        second.market.data == first.submitted(first_timestamp).market.data ==> second.rejection(
            second_timestamp,
        ) is Some,
        second.user_vta.data == first.submitted(first_timestamp).user_vta.data
            ==> second.rejection(second_timestamp) is Some,
        second.share_account.data == first.submitted(first_timestamp).share_account.data
            ==> second.rejection(second_timestamp) is Some,
        trade.vote_token_account.data == first.submitted(first_timestamp).user_vta.data
            ==> trade.rejection(trade_amount, price) is Some,
{
}

/// At most one computation in flight per balance: once a trade of vote
/// tokens is accepted, a trade or a purchase of shares that finds the
/// balance as the first one left it is rejected.
pub proof fn lemma_one_in_flight_after_a_trade(
    first: MintVoteTokens,
    first_amount: u64,
    first_price: u64,
    second: MintVoteTokens,
    second_amount: u64,
    second_price: u64,
    purchase: BuyMarketShares,
    unix_timestamp: i64,
)
    requires
        first.rejection(first_amount, first_price) is None,
    ensures
        second.vote_token_account.data == first.submitted().vote_token_account.data
            ==> second.rejection(second_amount, second_price) is Some,
        purchase.user_vta.data == first.submitted().vote_token_account.data
            ==> purchase.rejection(unix_timestamp) is Some,
{
}

/// The accounts of the callback as an accepted purchase leaves them.
pub open spec fn after_purchase(
    ctx: BuyMarketShares,
    unix_timestamp: i64,
) -> BuyConvictionMarketSharesCallback {
    BuyConvictionMarketSharesCallback {
        user_vote_token_account: ctx.submitted(unix_timestamp).user_vta,
        market: ctx.submitted(unix_timestamp).market,
        share_account: ctx.submitted(unix_timestamp).share_account,
    }
}

/// No stuck locks after a purchase of shares: whichever of the three results
/// the callback is handed, the market, the balance and the share account are
/// unlocked after it.
pub proof fn lemma_purchase_unlocks(
    ctx: BuyMarketShares,
    unix_timestamp: i64,
    output: Result<BuyConvictionMarketSharesOutput, VerificationFailed>,
)
    requires
        ctx.rejection(unix_timestamp) is None,
    ensures
        !after_purchase(ctx, unix_timestamp).settled(output).market.data.locked,
        !after_purchase(ctx, unix_timestamp).settled(output).user_vote_token_account.data.locked,
        !after_purchase(ctx, unix_timestamp).settled(output).share_account.data.locked,
{
}

/// Rollback after a purchase of shares: when the result does not verify or
/// the circuit declines, the market, the balance and the share account are
/// again exactly what they were when the purchase was accepted. In
/// particular the time of the purchase is what it was before.
pub proof fn lemma_purchase_rolls_back(
    ctx: BuyMarketShares,
    unix_timestamp: i64,
    output: Result<BuyConvictionMarketSharesOutput, VerificationFailed>,
)
    requires
        ctx.rejection(unix_timestamp) is None,
        BuyConvictionMarketSharesCallback::failure(output) is Some,
    ensures
        after_purchase(ctx, unix_timestamp).settled(output).market == ctx.market,
        after_purchase(ctx, unix_timestamp).settled(output).user_vote_token_account
            == ctx.user_vta,
        after_purchase(ctx, unix_timestamp).settled(output).share_account == ctx.share_account,
        after_purchase(ctx, unix_timestamp).settled(output).share_account.data.bought_at_timestamp
            == ctx.share_account.data.bought_at_timestamp,
{
}

/// One purchase per share account: once a purchase is applied, the share
/// account carries its time, unless that time is the zero second, and a
/// further purchase into an account that carries a time is rejected.
pub proof fn lemma_one_purchase_per_share_account(
    first: BuyMarketShares,
    first_timestamp: i64,
    output: BuyConvictionMarketSharesOutput,
    second: BuyMarketShares,
    second_timestamp: i64,
)
    requires
        first.rejection(first_timestamp) is None,
        !output.has_error,
        second.share_account.data.bought_at_timestamp != 0,
    ensures
        after_purchase(first, first_timestamp).settled(
            Ok(output),
        ).share_account.data.bought_at_timestamp == timestamp_of(first_timestamp),
        second.rejection(second_timestamp) is Some,
{
}

/// The accounts of the callback as an accepted trade leaves them, with the
/// lamports given.
pub open spec fn after_trade(
    ctx: MintVoteTokens,
    vote_token_account_lamports: u64,
    minimum_balance: u64,
    user_lamports: u64,
) -> CalculateVoteTokenBalanceCallback {
    CalculateVoteTokenBalanceCallback {
        vote_token_account: ctx.submitted().vote_token_account,
        vote_token_account_lamports,
        minimum_balance,
        user: ctx.signer,
        user_lamports,
    }
}

/// No stuck locks after a trade of vote tokens: whichever of the three
/// results the callback is handed, the balance is unlocked after a callback
/// that is not rejected; and one that is handed a result that does not
/// verify, or one that the circuit declined, is never rejected.
pub proof fn lemma_trade_unlocks(
    ctx: MintVoteTokens,
    trade_amount: u64,
    price: u64,
    vote_token_account_lamports: u64,
    minimum_balance: u64,
    user_lamports: u64,
    output: Result<CalculateVoteTokenBalanceOutput, VerificationFailed>,
)
    requires
        ctx.rejection(trade_amount, price) is None,
    ensures
        ({
            let callback = after_trade(
                ctx,
                vote_token_account_lamports,
                minimum_balance,
                user_lamports,
            );
            &&& !callback.settled(output, price).vote_token_account.data.locked
            &&& CalculateVoteTokenBalanceCallback::failure(output) is Some ==> !callback.overflows(
                output,
                price,
            )
        }),
{
}

/// Rollback after a trade of vote tokens: when the result does not verify or
/// the circuit declines, the balance is again exactly what it was and the
/// callback moves no lamport. What a purchase paid when it was queued stays
/// in the vote token account.
pub proof fn lemma_trade_rolls_back(
    ctx: MintVoteTokens,
    trade_amount: u64,
    price: u64,
    vote_token_account_lamports: u64,
    minimum_balance: u64,
    user_lamports: u64,
    output: Result<CalculateVoteTokenBalanceOutput, VerificationFailed>,
)
    requires
        ctx.rejection(trade_amount, price) is None,
        CalculateVoteTokenBalanceCallback::failure(output) is Some,
    ensures
        ({
            let callback = after_trade(
                ctx,
                vote_token_account_lamports,
                minimum_balance,
                user_lamports,
            );
            let settled = callback.settled(output, price);
            &&& settled.vote_token_account == ctx.vote_token_account
            &&& settled.vote_token_account_lamports == vote_token_account_lamports
            &&& settled.user_lamports == user_lamports
        }),
{
}

} // verus!
