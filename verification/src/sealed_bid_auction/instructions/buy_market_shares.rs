//! Buying shares of a market: queued by [`buy_market_shares`], settled by
//! [`buy_conviction_market_shares_callback`]. In this form the circuit only
//! says whether the balance covers the purchase.

use vstd::prelude::*;
use crate::arguments::{
    account, build, builder_arguments, encrypted_u16, encrypted_u64, new_builder, plaintext_u128,
    x25519_pubkey, Argument,
};
use crate::computation::{
    queue_computation, writable, Account, CallbackAccount, CallbackFailedEvent, CallbackOutcome,
    ComputationRequest, Failure, VerificationFailed,
};
use crate::pubkey::Pubkey;
use crate::sealed_bid_auction::error::ErrorCode;
use crate::sealed_bid_auction::state::{ConvictionMarket, VoteToken};

verus! {

/// The accounts of [`buy_market_shares`].
#[derive(Debug)]
pub struct BuyMarketShares {
    pub signer: Pubkey,
    pub market: Account<ConvictionMarket>,
    pub user_vote_token_account: Account<VoteToken>,
}

/// The accounts of [`buy_conviction_market_shares_callback`].
#[derive(Debug)]
pub struct BuyConvictionMarketSharesCallback {
    pub user_vote_token_account: Account<VoteToken>,
}

impl BuyMarketShares {
    /// Why the purchase is rejected, if it is: the market has no opening
    /// time, or the balance is locked.
    pub open spec fn rejection(self) -> Option<ErrorCode> {
        if self.market.data.open_timestamp is None {
            Some(ErrorCode::MarketNotOpen)
        } else if self.user_vote_token_account.data.locked {
            Some(ErrorCode::Locked)
        } else {
            None
        }
    }

    /// The accounts after an accepted purchase: the balance is locked.
    pub open spec fn submitted(self) -> BuyMarketShares {
        BuyMarketShares {
            user_vote_token_account: Account {
                data: VoteToken { locked: true, ..self.user_vote_token_account.data },
                ..self.user_vote_token_account
            },
            ..self
        }
    }

    /// The arguments of the purchase: the buyer's input and the buyer's
    /// balance as stored.
    pub open spec fn arguments(
        self,
        amount_ciphertext: [u8; 32],
        selected_option_ciphertext: [u8; 32],
        user_pubkey: [u8; 32],
        input_nonce: u128,
    ) -> Seq<Argument> {
        let vta = self.user_vote_token_account;
        seq![
            Argument::X25519Pubkey(user_pubkey@),
            Argument::PlaintextU128(input_nonce),
            Argument::EncryptedU64(amount_ciphertext@),
            Argument::EncryptedU16(selected_option_ciphertext@),
            Argument::PlaintextU128(vta.data.state_nonce),
            Argument::Account { pubkey: vta.key.bytes@, offset: 8, length: 32 },
        ]
    }

    /// The one account the callback may write: the vote token account.
    pub open spec fn callback_accounts(self) -> Seq<CallbackAccount> {
        seq![CallbackAccount { pubkey: self.user_vote_token_account.key, is_writable: true }]
    }
}

/// Queues the purchase of shares with the signer's vote tokens. Accepted
/// when the market has an opening time and the balance is not locked; the
/// balance is then locked. A rejected purchase changes nothing.
pub fn buy_market_shares(
    ctx: &mut BuyMarketShares,
    computation_offset: u64,
    amount_ciphertext: [u8; 32],
    selected_option_ciphertext: [u8; 32],
    user_pubkey: [u8; 32],
    input_nonce: u128,
) -> (result: Result<ComputationRequest, ErrorCode>)
    ensures
        match result {
            Ok(request) => {
                &&& old(ctx).rejection() is None
                &&& *final(ctx) == old(ctx).submitted()
                &&& request.describes(
                    "buy_conviction_market_shares"@,
                    computation_offset,
                    old(ctx).arguments(
                        amount_ciphertext,
                        selected_option_ciphertext,
                        user_pubkey,
                        input_nonce,
                    ),
                    old(ctx).callback_accounts(),
                )
            },
            Err(e) => old(ctx).rejection() == Some(e) && *final(ctx) == *old(ctx),
        },
{
    if ctx.market.data.open_timestamp.is_none() {
        return Err(ErrorCode::MarketNotOpen);
    }
    if ctx.user_vote_token_account.data.locked {
        return Err(ErrorCode::Locked);
    }
    let user_vta_key = ctx.user_vote_token_account.key;
    let user_vta_nonce = ctx.user_vote_token_account.data.state_nonce;

    let builder = new_builder();
    let builder = x25519_pubkey(builder, user_pubkey);
    let builder = plaintext_u128(builder, input_nonce);
    let builder = encrypted_u64(builder, amount_ciphertext);
    let builder = encrypted_u16(builder, selected_option_ciphertext);
    let builder = plaintext_u128(builder, user_vta_nonce);
    let builder = account(builder, user_vta_key, 8, 32 * 1);
    assert(builder_arguments(builder) =~= old(ctx).arguments(
        amount_ciphertext,
        selected_option_ciphertext,
        user_pubkey,
        input_nonce,
    ));
    let args = build(builder);

    ctx.user_vote_token_account.data.locked = true;

    let mut callback_accounts: Vec<CallbackAccount> = Vec::new();
    callback_accounts.push(writable(user_vta_key));
    assert(callback_accounts@ =~= old(ctx).callback_accounts());
    Ok(
        queue_computation(
            "buy_conviction_market_shares",
            computation_offset,
            args,
            callback_accounts,
        ),
    )
}

impl BuyConvictionMarketSharesCallback {
    /// Why the result is not applied, if it is not. The circuit returns one
    /// flag: whether the balance failed to cover the purchase.
    pub open spec fn failure(output: Result<bool, VerificationFailed>) -> Option<Failure> {
        match output {
            Err(_) => Some(Failure::VerificationFailed),
            Ok(has_error) => if has_error {
                Some(Failure::Declined)
            } else {
                None
            },
        }
    }

    /// The accounts after the callback. The balance is unlocked whatever the
    /// result. An applied result resets the nonce of the balance to zero.
    pub open spec fn settled(
        self,
        output: Result<bool, VerificationFailed>,
    ) -> BuyConvictionMarketSharesCallback {
        let vta = VoteToken { locked: false, ..self.user_vote_token_account.data };
        BuyConvictionMarketSharesCallback {
            user_vote_token_account: Account {
                data: if Self::failure(output) is Some {
                    vta
                } else {
                    VoteToken { state_nonce: 0, ..vta }
                },
                ..self.user_vote_token_account
            },
        }
    }

    /// What the callback reports.
    pub open spec fn outcome(
        self,
        unix_timestamp: i64,
        output: Result<bool, VerificationFailed>,
    ) -> CallbackOutcome<(), CallbackFailedEvent> {
        match Self::failure(output) {
            Some(failure) => CallbackOutcome::RolledBack(
                failure,
                CallbackFailedEvent {
                    account: self.user_vote_token_account.key,
                    timestamp: unix_timestamp,
                },
            ),
            None => CallbackOutcome::Applied(()),
        }
    }
}

/// Settles a purchase of shares.
///
/// The balance is unlocked before the result is looked at. A result that did
/// not verify, or a set flag, is reported as a failure and leaves the balance
/// as it was; the transaction still succeeds. Otherwise the nonce of the
/// balance is reset to zero.
pub fn buy_conviction_market_shares_callback(
    ctx: &mut BuyConvictionMarketSharesCallback,
    unix_timestamp: i64,
    output: Result<bool, VerificationFailed>,
) -> (outcome: CallbackOutcome<(), CallbackFailedEvent>)
    ensures
        *final(ctx) == old(ctx).settled(output),
        outcome == old(ctx).outcome(unix_timestamp, output),
{
    ctx.user_vote_token_account.data.locked = false;
    let account = ctx.user_vote_token_account.key;
    let has_error = match output {
        Ok(flag) => flag,
        Err(_) => {
            return CallbackOutcome::RolledBack(
                Failure::VerificationFailed,
                CallbackFailedEvent { account, timestamp: unix_timestamp },
            );
        },
    };
    if has_error {
        return CallbackOutcome::RolledBack(
            Failure::Declined,
            CallbackFailedEvent { account, timestamp: unix_timestamp },
        );
    }
    ctx.user_vote_token_account.data.state_nonce = 0;
    CallbackOutcome::Applied(())
}

} // verus!
