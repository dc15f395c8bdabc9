//! Buying shares of a market with vote tokens: queued by
//! [`buy_market_shares`], settled by
//! [`buy_conviction_market_shares_callback`].

use vstd::prelude::*;
use crate::arguments::{
    account, build, builder_arguments, encrypted_u16, encrypted_u64, new_builder, plaintext_u128,
    x25519_pubkey, Argument,
};
use crate::computation::{
    current_timestamp, queue_computation, timestamp_of, writable, Account, CallbackAccount,
    CallbackFailedEvent, CallbackOutcome, ComputationRequest, EncryptedOutput, Failure,
    VerificationFailed,
};
use crate::conviction_market::error::ErrorCode;
use crate::conviction_market::events::SharesPurchasedEvent;
use crate::conviction_market::state::{ConvictionMarket, ShareAccount, VoteTokenAccount};
use crate::pubkey::Pubkey;

verus! {

/// The accounts of [`buy_market_shares`].
#[derive(Debug)]
pub struct BuyMarketShares {
    pub signer: Pubkey,
    pub market: Account<ConvictionMarket>,
    pub user_vta: Account<VoteTokenAccount>,
    pub share_account: Account<ShareAccount>,
}

/// The accounts of [`buy_conviction_market_shares_callback`].
#[derive(Debug)]
pub struct BuyConvictionMarketSharesCallback {
    pub user_vote_token_account: Account<VoteTokenAccount>,
    pub market: Account<ConvictionMarket>,
    pub share_account: Account<ShareAccount>,
}

/// What the purchase circuit returns.
#[derive(Clone, Copy, Debug, PartialEq, Eq)]
pub struct BuyConvictionMarketSharesOutput {
    /// The purchase exceeded the balance or the shares the market has left.
    pub has_error: bool,
    pub new_user_balance: EncryptedOutput<1>,
    pub new_market_shares: EncryptedOutput<1>,
    /// The shares bought, for the owner of the share account.
    pub bought_shares_mxe: EncryptedOutput<2>,
    /// The shares bought, for the reader named at the purchase.
    pub bought_shares_shared: EncryptedOutput<2>,
}

impl BuyMarketShares {
    /// Why the purchase is rejected at `unix_timestamp`, if it is. The first
    /// check that fails decides. A share account takes one purchase: one that
    /// carries a time of purchase already is not bought into again.
    pub open spec fn rejection(self, unix_timestamp: i64) -> Option<ErrorCode> {
        if self.market.data.open_timestamp is None {
            Some(ErrorCode::MarketNotOpen)
        } else if self.market.data.selected_option is Some {
            Some(ErrorCode::WinnerAlreadySelected)
        } else if self.market.data.locked || self.user_vta.data.locked
            || self.share_account.data.locked {
            Some(ErrorCode::Locked)
        } else if self.share_account.data.bought_at_timestamp != 0 {
            Some(ErrorCode::AlreadyPurchased)
        } else {
            self.market.data.staking_rejection(timestamp_of(unix_timestamp))
        }
    }

    /// The accounts after an accepted purchase: the market, the balance and
    /// the share account are locked, and the share account carries the time
    /// at which the purchase was queued, provisionally.
    pub open spec fn submitted(self, unix_timestamp: i64) -> BuyMarketShares {
        BuyMarketShares {
            market: Account {
                data: ConvictionMarket { locked: true, ..self.market.data },
                ..self.market
            },
            user_vta: Account {
                data: VoteTokenAccount { locked: true, ..self.user_vta.data },
                ..self.user_vta
            },
            share_account: Account {
                data: ShareAccount {
                    bought_at_timestamp: timestamp_of(unix_timestamp),
                    locked: true,
                    ..self.share_account.data
                },
                ..self.share_account
            },
            ..self
        }
    }

    /// The arguments of the purchase: the buyer's input, the reader's
    /// context, the buyer's balance and the market's remaining shares as
    /// stored, and the context the share account's copy is encrypted under.
    pub open spec fn arguments(
        self,
        amount_ciphertext: [u8; 32],
        selected_option_ciphertext: [u8; 32],
        user_pubkey: [u8; 32],
        input_nonce: u128,
        authorized_reader_pubkey: [u8; 32],
        authorized_reader_nonce: u128,
    ) -> Seq<Argument> {
        seq![
            Argument::X25519Pubkey(user_pubkey@),
            Argument::PlaintextU128(input_nonce),
            Argument::EncryptedU64(amount_ciphertext@),
            Argument::EncryptedU16(selected_option_ciphertext@),
            Argument::X25519Pubkey(authorized_reader_pubkey@),
            Argument::PlaintextU128(authorized_reader_nonce),
            Argument::X25519Pubkey(user_pubkey@),
            Argument::PlaintextU128(self.user_vta.data.state_nonce),
            Argument::Account { pubkey: self.user_vta.key.bytes@, offset: 8, length: 32 },
            Argument::PlaintextU128(self.market.data.state_nonce),
            Argument::Account { pubkey: self.market.key.bytes@, offset: 8, length: 32 },
            Argument::X25519Pubkey(user_pubkey@),
            Argument::PlaintextU128(self.share_account.data.state_nonce),
        ]
    }

    /// The accounts the callback may write: the vote token account, the
    /// market, the share account.
    pub open spec fn callback_accounts(self) -> Seq<CallbackAccount> {
        seq![
            CallbackAccount { pubkey: self.user_vta.key, is_writable: true },
            CallbackAccount { pubkey: self.market.key, is_writable: true },
            CallbackAccount { pubkey: self.share_account.key, is_writable: true },
        ]
    }
}

/// Queues the purchase of shares with the signer's vote tokens.
///
/// Accepted when the market is open and undecided, none of the market, the
/// balance and the share account is locked, the share account holds no
/// purchase yet, and the clock stands in the staking window. Then all three
/// are locked and the share account is stamped with the time. A rejected
/// purchase changes nothing.
pub fn buy_market_shares(
    ctx: &mut BuyMarketShares,
    unix_timestamp: i64,
    computation_offset: u64,
    amount_ciphertext: [u8; 32],
    selected_option_ciphertext: [u8; 32],
    user_pubkey: [u8; 32],
    input_nonce: u128,
    authorized_reader_pubkey: [u8; 32],
    authorized_reader_nonce: u128,
) -> (result: Result<ComputationRequest, ErrorCode>)
    ensures
        match result {
            Ok(request) => {
                &&& old(ctx).rejection(unix_timestamp) is None
                &&& *final(ctx) == old(ctx).submitted(unix_timestamp)
                &&& request.describes(
                    "buy_conviction_market_shares"@,
                    computation_offset,
                    old(ctx).arguments(
                        amount_ciphertext,
                        selected_option_ciphertext,
                        user_pubkey,
                        input_nonce,
                        authorized_reader_pubkey,
                        authorized_reader_nonce,
                    ),
                    old(ctx).callback_accounts(),
                )
            },
            Err(e) => old(ctx).rejection(unix_timestamp) == Some(e) && *final(ctx) == *old(ctx),
        },
{
    if ctx.market.data.open_timestamp.is_none() {
        return Err(ErrorCode::MarketNotOpen);
    }
    if ctx.market.data.selected_option.is_some() {
        return Err(ErrorCode::WinnerAlreadySelected);
    }
    if ctx.market.data.locked || ctx.user_vta.data.locked || ctx.share_account.data.locked {
        return Err(ErrorCode::Locked);
    }
    if ctx.share_account.data.bought_at_timestamp != 0 {
        return Err(ErrorCode::AlreadyPurchased);
    }
    let now = current_timestamp(unix_timestamp);
    match ctx.market.data.require_staking_active(now) {
        Ok(_) => {},
        Err(e) => return Err(e),
    }
    ctx.share_account.data.bought_at_timestamp = now;
    ctx.market.data.locked = true;
    ctx.user_vta.data.locked = true;
    ctx.share_account.data.locked = true;

    let user_vta_key = ctx.user_vta.key;
    let user_vta_nonce = ctx.user_vta.data.state_nonce;
    let market_key = ctx.market.key;
    let market_state_nonce = ctx.market.data.state_nonce;

    let builder = new_builder();
    let builder = x25519_pubkey(builder, user_pubkey);
    let builder = plaintext_u128(builder, input_nonce);
    let builder = encrypted_u64(builder, amount_ciphertext);
    let builder = encrypted_u16(builder, selected_option_ciphertext);
    let builder = x25519_pubkey(builder, authorized_reader_pubkey);
    let builder = plaintext_u128(builder, authorized_reader_nonce);
    let builder = x25519_pubkey(builder, user_pubkey);
    let builder = plaintext_u128(builder, user_vta_nonce);
    let builder = account(builder, user_vta_key, 8, 32 * 1);
    let builder = plaintext_u128(builder, market_state_nonce);
    let builder = account(builder, market_key, 8, 32 * 1);
    let builder = x25519_pubkey(builder, user_pubkey);
    let builder = plaintext_u128(builder, ctx.share_account.data.state_nonce);
    assert(builder_arguments(builder) =~= old(ctx).arguments(
        amount_ciphertext,
        selected_option_ciphertext,
        user_pubkey,
        input_nonce,
        authorized_reader_pubkey,
        authorized_reader_nonce,
    ));
    let args = build(builder);

    let mut callback_accounts: Vec<CallbackAccount> = Vec::new();
    callback_accounts.push(writable(user_vta_key));
    callback_accounts.push(writable(market_key));
    callback_accounts.push(writable(ctx.share_account.key));
    assert(callback_accounts@ =~= old(ctx).callback_accounts());
    Ok(
        queue_computation(
            "buy_conviction_market_shares",
            computation_offset,
            args,
            callback_accounts,
        ),
    )
}

impl BuyConvictionMarketSharesCallback {
    /// Why the result is not applied, if it is not.
    pub open spec fn failure(
        output: Result<BuyConvictionMarketSharesOutput, VerificationFailed>,
    ) -> Option<Failure> {
        match output {
            Err(_) => Some(Failure::VerificationFailed),
            Ok(res) => if res.has_error {
                Some(Failure::Declined)
            } else {
                None
            },
        }
    }

    /// The accounts after the callback. All three are unlocked whatever the
    /// result. A result that is not applied puts the time of the purchase
    /// back to zero, which is what it was when the purchase was accepted; one
    /// that is applied replaces the balance, the market's remaining shares
    /// and both copies of the shares bought.
    pub open spec fn settled(
        self,
        output: Result<BuyConvictionMarketSharesOutput, VerificationFailed>,
    ) -> BuyConvictionMarketSharesCallback {
        let vta = VoteTokenAccount { locked: false, ..self.user_vote_token_account.data };
        let market = ConvictionMarket { locked: false, ..self.market.data };
        let share = ShareAccount { locked: false, ..self.share_account.data };
        if Self::failure(output) is Some {
            BuyConvictionMarketSharesCallback {
                user_vote_token_account: Account { data: vta, ..self.user_vote_token_account },
                market: Account { data: market, ..self.market },
                share_account: Account {
                    data: ShareAccount { bought_at_timestamp: 0, ..share },
                    ..self.share_account
                },
            }
        } else {
            let res = output->Ok_0;
            BuyConvictionMarketSharesCallback {
                user_vote_token_account: Account {
                    data: VoteTokenAccount {
                        state_nonce: res.new_user_balance.nonce,
                        encrypted_state: res.new_user_balance.ciphertexts,
                        ..vta
                    },
                    ..self.user_vote_token_account
                },
                market: Account {
                    data: ConvictionMarket {
                        state_nonce: res.new_market_shares.nonce,
                        encrypted_available_shares: res.new_market_shares.ciphertexts,
                        ..market
                    },
                    ..self.market
                },
                share_account: Account {
                    data: ShareAccount {
                        state_nonce: res.bought_shares_mxe.nonce,
                        encrypted_state: res.bought_shares_mxe.ciphertexts,
                        state_nonce_disclosure: res.bought_shares_shared.nonce,
                        encrypted_state_disclosure: res.bought_shares_shared.ciphertexts,
                        ..share
                    },
                    ..self.share_account
                },
            }
        }
    }

    /// What the callback reports.
    pub open spec fn outcome(
        self,
        unix_timestamp: i64,
        output: Result<BuyConvictionMarketSharesOutput, VerificationFailed>,
    ) -> CallbackOutcome<SharesPurchasedEvent, CallbackFailedEvent> {
        let buyer = self.user_vote_token_account.data.owner;
        match Self::failure(output) {
            Some(failure) => CallbackOutcome::RolledBack(
                failure,
                CallbackFailedEvent {
                    account: self.user_vote_token_account.key,
                    timestamp: unix_timestamp,
                },
            ),
            None => CallbackOutcome::Applied(
                SharesPurchasedEvent {
                    buyer,
                    encrypted_disclosed_amount: output->Ok_0.bought_shares_shared.ciphertexts[0],
                    nonce: output->Ok_0.bought_shares_shared.nonce,
                },
            ),
        }
    }
}

/// Settles a purchase of shares.
///
/// All three accounts are unlocked before the result is looked at. A result
/// that did not verify, or one whose error flag is set, puts the time of the
/// purchase back to zero, as the purchase found it, and is reported as a
/// failure; the transaction still succeeds. Otherwise the new balance, the market's remaining shares and the
/// shares bought are written, and the purchase is reported.
pub fn buy_conviction_market_shares_callback(
    ctx: &mut BuyConvictionMarketSharesCallback,
    unix_timestamp: i64,
    output: Result<BuyConvictionMarketSharesOutput, VerificationFailed>,
) -> (outcome: CallbackOutcome<SharesPurchasedEvent, CallbackFailedEvent>)
    ensures
        *final(ctx) == old(ctx).settled(output),
        outcome == old(ctx).outcome(unix_timestamp, output),
{
    ctx.user_vote_token_account.data.locked = false;
    ctx.market.data.locked = false;
    ctx.share_account.data.locked = false;
    let buyer = ctx.user_vote_token_account.data.owner;
    let account = ctx.user_vote_token_account.key;

    let res = match output {
        Ok(res) => res,
        Err(_) => {
            ctx.share_account.data.bought_at_timestamp = 0;
            return CallbackOutcome::RolledBack(
                Failure::VerificationFailed,
                CallbackFailedEvent { account, timestamp: unix_timestamp },
            );
        },
    };
    if res.has_error {
        ctx.share_account.data.bought_at_timestamp = 0;
        return CallbackOutcome::RolledBack(
            Failure::Declined,
            CallbackFailedEvent { account, timestamp: unix_timestamp },
        );
    }
    let new_user_balance = res.new_user_balance;
    let new_market_shares = res.new_market_shares;
    let bought_shares_mxe = res.bought_shares_mxe;
    let bought_shares_shared = res.bought_shares_shared;

    ctx.user_vote_token_account.data.state_nonce = new_user_balance.nonce;
    ctx.user_vote_token_account.data.encrypted_state = new_user_balance.ciphertexts;

    ctx.market.data.state_nonce = new_market_shares.nonce;
    ctx.market.data.encrypted_available_shares = new_market_shares.ciphertexts;

    ctx.share_account.data.state_nonce = bought_shares_mxe.nonce;
    ctx.share_account.data.encrypted_state = bought_shares_mxe.ciphertexts;
    ctx.share_account.data.state_nonce_disclosure = bought_shares_shared.nonce;
    ctx.share_account.data.encrypted_state_disclosure = bought_shares_shared.ciphertexts;

    CallbackOutcome::Applied(
        SharesPurchasedEvent {
            buyer,
            encrypted_disclosed_amount: bought_shares_shared.ciphertexts[0],
            nonce: bought_shares_shared.nonce,
        },
    )
}

} // verus!
