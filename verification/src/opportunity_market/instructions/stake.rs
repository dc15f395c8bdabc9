//! Staking on an option: the purchase is queued by [`stake`] and settled by
//! [`buy_opportunity_market_shares_callback`].

use vstd::prelude::*;
use crate::arguments::{
    account, build, builder_arguments, encrypted_u16, encrypted_u64, new_builder, plaintext_u128,
    x25519_pubkey, Argument,
};
use crate::computation::{
    current_timestamp, queue_computation, timestamp_of, writable, Account, CallbackAccount,
    CallbackOutcome, ComputationRequest, EncryptedOutput, Failure, VerificationFailed,
};
use crate::opportunity_market::error::ErrorCode;
use crate::opportunity_market::events::{StakedError, StakedEvent};
use crate::opportunity_market::state::{EncryptedTokenAccount, OpportunityMarket, ShareAccount};
use crate::pubkey::Pubkey;

verus! {

/// The accounts of [`stake`].
#[derive(Debug)]
pub struct Stake {
    pub signer: Pubkey,
    pub market: Account<OpportunityMarket>,
    pub user_eta: Account<EncryptedTokenAccount>,
    pub share_account: Account<ShareAccount>,
}

/// The accounts of [`buy_opportunity_market_shares_callback`].
#[derive(Debug)]
pub struct BuyOpportunityMarketSharesCallback {
    pub user_encrypted_token_account: Account<EncryptedTokenAccount>,
    pub share_account: Account<ShareAccount>,
}

/// What the purchase circuit returns.
#[derive(Clone, Copy, Debug, PartialEq, Eq)]
pub struct BuyOpportunityMarketSharesOutput {
    /// The balance did not cover the purchase.
    pub error: bool,
    pub new_user_balance: EncryptedOutput<1>,
    /// The shares bought, for the owner of the share account.
    pub bought_shares_mxe: EncryptedOutput<2>,
    /// The shares bought, for the market's reader.
    pub bought_shares_shared: EncryptedOutput<2>,
}

impl Stake {
    /// Why the stake is rejected at `unix_timestamp`, if it is. The checks
    /// run in this order and the first that fails decides.
    pub open spec fn rejection(self, unix_timestamp: i64) -> Option<ErrorCode> {
        if self.market.data.open_timestamp is None {
            Some(ErrorCode::MarketNotOpen)
        } else if self.market.data.selected_option is Some {
            Some(ErrorCode::WinnerAlreadySelected)
        } else if self.user_eta.data.owner != self.signer {
            Some(ErrorCode::Unauthorized)
        } else if self.user_eta.data.locked {
            Some(ErrorCode::Locked)
        } else if self.share_account.data.staked_at_timestamp is Some {
            Some(ErrorCode::AlreadyPurchased)
        } else if self.share_account.data.unstaked_at_timestamp is Some {
            Some(ErrorCode::AlreadyUnstaked)
        } else if self.share_account.data.locked {
            Some(ErrorCode::Locked)
        } else if self.market.data.mint != self.user_eta.data.token_mint {
            Some(ErrorCode::InvalidMint)
        } else {
            self.market.data.staking_rejection(timestamp_of(unix_timestamp))
        }
    }

    /// The accounts after an accepted stake: both the balance and the share
    /// account are locked, and the share account carries the time of the
    /// stake, provisionally.
    pub open spec fn submitted(self, unix_timestamp: i64) -> Stake {
        Stake {
            user_eta: Account {
                data: EncryptedTokenAccount { locked: true, ..self.user_eta.data },
                ..self.user_eta
            },
            share_account: Account {
                data: ShareAccount {
                    staked_at_timestamp: Some(timestamp_of(unix_timestamp)),
                    locked: true,
                    ..self.share_account.data
                },
                ..self.share_account
            },
            ..self
        }
    }

    /// The arguments of the purchase: the buyer's input, the reader's
    /// context, the buyer's balance as stored, and the context the share
    /// account's copy is encrypted under.
    pub open spec fn arguments(
        self,
        amount_ciphertext: [u8; 32],
        selected_option_ciphertext: [u8; 32],
        input_nonce: u128,
        authorized_reader_nonce: u128,
    ) -> Seq<Argument> {
        let user_pubkey = self.user_eta.data.user_pubkey@;
        seq![
            Argument::X25519Pubkey(user_pubkey),
            Argument::PlaintextU128(input_nonce),
            Argument::EncryptedU64(amount_ciphertext@),
            Argument::EncryptedU16(selected_option_ciphertext@),
            Argument::X25519Pubkey(self.market.data.authorized_reader_pubkey@),
            Argument::PlaintextU128(authorized_reader_nonce),
            Argument::X25519Pubkey(user_pubkey),
            Argument::PlaintextU128(self.user_eta.data.state_nonce),
            Argument::Account { pubkey: self.user_eta.key.bytes@, offset: 8, length: 32 },
            Argument::X25519Pubkey(user_pubkey),
            Argument::PlaintextU128(self.share_account.data.state_nonce),
        ]
    }

    /// The accounts the callback may write: the balance, then the share
    /// account.
    pub open spec fn callback_accounts(self) -> Seq<CallbackAccount> {
        seq![
            CallbackAccount { pubkey: self.user_eta.key, is_writable: true },
            CallbackAccount { pubkey: self.share_account.key, is_writable: true },
        ]
    }
}

/// Queues the purchase of shares with the signer's encrypted balance.
///
/// The stake is accepted when the market is open and undecided, the balance
/// is the signer's, in the market's mint and not locked, the share account is
/// unused and not locked, and the clock stands in the staking window. Then
/// both accounts are locked and the share account is stamped with the time.
/// A rejected stake changes nothing.
pub fn stake(
    ctx: &mut Stake,
    unix_timestamp: i64,
    computation_offset: u64,
    _share_account_id: u32,
    amount_ciphertext: [u8; 32],
    selected_option_ciphertext: [u8; 32],
    input_nonce: u128,
    authorized_reader_nonce: u128,
) -> (result: Result<ComputationRequest, ErrorCode>)
    ensures
        match result {
            Ok(request) => {
                &&& old(ctx).rejection(unix_timestamp) is None
                &&& *final(ctx) == old(ctx).submitted(unix_timestamp)
                &&& request.describes(
                    "buy_opportunity_market_shares"@,
                    computation_offset,
                    old(ctx).arguments(
                        amount_ciphertext,
                        selected_option_ciphertext,
                        input_nonce,
                        authorized_reader_nonce,
                    ),
                    old(ctx).callback_accounts(),
                )
            },
            Err(e) => old(ctx).rejection(unix_timestamp) == Some(e) && *final(ctx) == *old(ctx),
        },
{
    if ctx.market.data.open_timestamp.is_none() {
        return Err(ErrorCode::MarketNotOpen);
    }
    if ctx.market.data.selected_option.is_some() {
        return Err(ErrorCode::WinnerAlreadySelected);
    }
    if ctx.user_eta.data.owner != ctx.signer {
        return Err(ErrorCode::Unauthorized);
    }
    if ctx.user_eta.data.locked {
        return Err(ErrorCode::Locked);
    }
    if ctx.share_account.data.staked_at_timestamp.is_some() {
        return Err(ErrorCode::AlreadyPurchased);
    }
    if ctx.share_account.data.unstaked_at_timestamp.is_some() {
        return Err(ErrorCode::AlreadyUnstaked);
    }
    if ctx.share_account.data.locked {
        return Err(ErrorCode::Locked);
    }
    if ctx.market.data.mint != ctx.user_eta.data.token_mint {
        return Err(ErrorCode::InvalidMint);
    }
    let now = current_timestamp(unix_timestamp);
    match ctx.market.data.require_staking_active(now) {
        Ok(_) => {},
        Err(e) => return Err(e),
    }
    let user_pubkey = ctx.user_eta.data.user_pubkey;
    let authorized_reader_pubkey = ctx.market.data.authorized_reader_pubkey;
    let user_eta_key = ctx.user_eta.key;
    let user_eta_nonce = ctx.user_eta.data.state_nonce;
    let share_account_key = ctx.share_account.key;

    ctx.share_account.data.staked_at_timestamp = Some(now);
    ctx.user_eta.data.locked = true;
    ctx.share_account.data.locked = true;

    let builder = new_builder();
    let builder = x25519_pubkey(builder, user_pubkey);
    let builder = plaintext_u128(builder, input_nonce);
    let builder = encrypted_u64(builder, amount_ciphertext);
    let builder = encrypted_u16(builder, selected_option_ciphertext);
    let builder = x25519_pubkey(builder, authorized_reader_pubkey);
    let builder = plaintext_u128(builder, authorized_reader_nonce);
    let builder = x25519_pubkey(builder, user_pubkey);
    let builder = plaintext_u128(builder, user_eta_nonce);
    let builder = account(builder, user_eta_key, 8, 32 * 1);
    let builder = x25519_pubkey(builder, user_pubkey);
    let builder = plaintext_u128(builder, ctx.share_account.data.state_nonce);
    assert(builder_arguments(builder) =~= old(ctx).arguments(
        amount_ciphertext,
        selected_option_ciphertext,
        input_nonce,
        authorized_reader_nonce,
    ));
    let args = build(builder);

    let mut callback_accounts: Vec<CallbackAccount> = Vec::new();
    callback_accounts.push(writable(user_eta_key));
    callback_accounts.push(writable(share_account_key));
    assert(callback_accounts@ =~= old(ctx).callback_accounts());
    Ok(
        queue_computation(
            "buy_opportunity_market_shares",
            computation_offset,
            args,
            callback_accounts,
        ),
    )
}

impl BuyOpportunityMarketSharesCallback {
    /// Why the result is not applied, if it is not.
    pub open spec fn failure(
        output: Result<BuyOpportunityMarketSharesOutput, VerificationFailed>,
    ) -> Option<Failure> {
        match output {
            Err(_) => Some(Failure::VerificationFailed),
            Ok(res) => if res.error {
                Some(Failure::Declined)
            } else {
                None
            },
        }
    }

    /// The accounts after the callback. Both are unlocked whatever the
    /// result. A result that is not applied clears the time of the stake; one
    /// that is applied replaces the balance and both copies of the shares.
    pub open spec fn settled(
        self,
        output: Result<BuyOpportunityMarketSharesOutput, VerificationFailed>,
    ) -> BuyOpportunityMarketSharesCallback {
        let eta = self.user_encrypted_token_account;
        let share = self.share_account;
        if Self::failure(output) is Some {
            BuyOpportunityMarketSharesCallback {
                user_encrypted_token_account: Account {
                    data: EncryptedTokenAccount { locked: false, ..eta.data },
                    ..eta
                },
                share_account: Account {
                    data: ShareAccount { locked: false, staked_at_timestamp: None, ..share.data },
                    ..share
                },
            }
        } else {
            let res = output->Ok_0;
            BuyOpportunityMarketSharesCallback {
                user_encrypted_token_account: Account {
                    data: EncryptedTokenAccount {
                        locked: false,
                        state_nonce: res.new_user_balance.nonce,
                        encrypted_state: res.new_user_balance.ciphertexts,
                        ..eta.data
                    },
                    ..eta
                },
                share_account: Account {
                    data: ShareAccount {
                        locked: false,
                        state_nonce: res.bought_shares_mxe.nonce,
                        encrypted_state: res.bought_shares_mxe.ciphertexts,
                        state_nonce_disclosure: res.bought_shares_shared.nonce,
                        encrypted_state_disclosure: res.bought_shares_shared.ciphertexts,
                        ..share.data
                    },
                    ..share
                },
            }
        }
    }

    /// What the callback reports.
    pub open spec fn outcome(
        self,
        unix_timestamp: i64,
        output: Result<BuyOpportunityMarketSharesOutput, VerificationFailed>,
    ) -> CallbackOutcome<StakedEvent, StakedError> {
        let user = self.user_encrypted_token_account.data.owner;
        match Self::failure(output) {
            Some(failure) => CallbackOutcome::RolledBack(
                failure,
                StakedError { user, timestamp: unix_timestamp },
            ),
            None => {
                let res = output->Ok_0;
                CallbackOutcome::Applied(
                    StakedEvent {
                        user,
                        encrypted_token_account: self.user_encrypted_token_account.key,
                        share_account: self.share_account.key,
                        share_encrypted_state: res.bought_shares_mxe.ciphertexts,
                        share_state_nonce: res.bought_shares_mxe.nonce,
                        share_encrypted_state_disclosure: res.bought_shares_shared.ciphertexts,
                        share_state_disclosure_nonce: res.bought_shares_shared.nonce,
                        encrypted_eta_balance: res.new_user_balance.ciphertexts[0],
                        eta_balance_nonce: res.new_user_balance.nonce,
                        timestamp: unix_timestamp,
                    },
                )
            },
        }
    }
}

/// Settles a purchase of shares.
///
/// Both accounts are unlocked before the result is looked at. A result that
/// did not verify, or one whose error flag is set, clears the time of the
/// stake again and is reported as a failure; the transaction still succeeds.
/// Otherwise the new balance and the shares are written.
pub fn buy_opportunity_market_shares_callback(
    ctx: &mut BuyOpportunityMarketSharesCallback,
    unix_timestamp: i64,
    output: Result<BuyOpportunityMarketSharesOutput, VerificationFailed>,
) -> (outcome: CallbackOutcome<StakedEvent, StakedError>)
    ensures
        *final(ctx) == old(ctx).settled(output),
        outcome == old(ctx).outcome(unix_timestamp, output),
{
    ctx.user_encrypted_token_account.data.locked = false;
    ctx.share_account.data.locked = false;
    let user = ctx.user_encrypted_token_account.data.owner;

    let res = match output {
        Ok(res) => res,
        Err(_) => {
            ctx.share_account.data.staked_at_timestamp = None;
            return CallbackOutcome::RolledBack(
                Failure::VerificationFailed,
                StakedError { user, timestamp: unix_timestamp },
            );
        },
    };
    if res.error {
        ctx.share_account.data.staked_at_timestamp = None;
        return CallbackOutcome::RolledBack(
            Failure::Declined,
            StakedError { user, timestamp: unix_timestamp },
        );
    }
    let new_user_balance = res.new_user_balance;
    let bought_shares_mxe = res.bought_shares_mxe;
    let bought_shares_shared = res.bought_shares_shared;

    ctx.user_encrypted_token_account.data.state_nonce = new_user_balance.nonce;
    ctx.user_encrypted_token_account.data.encrypted_state = new_user_balance.ciphertexts;

    ctx.share_account.data.state_nonce = bought_shares_mxe.nonce;
    ctx.share_account.data.encrypted_state = bought_shares_mxe.ciphertexts;
    ctx.share_account.data.state_nonce_disclosure = bought_shares_shared.nonce;
    ctx.share_account.data.encrypted_state_disclosure = bought_shares_shared.ciphertexts;

    CallbackOutcome::Applied(
        StakedEvent {
            user,
            encrypted_token_account: ctx.user_encrypted_token_account.key,
            share_account: ctx.share_account.key,
            share_encrypted_state: bought_shares_mxe.ciphertexts,
            share_state_nonce: bought_shares_mxe.nonce,
            share_encrypted_state_disclosure: bought_shares_shared.ciphertexts,
            share_state_disclosure_nonce: bought_shares_shared.nonce,
            encrypted_eta_balance: new_user_balance.ciphertexts[0],
            eta_balance_nonce: new_user_balance.nonce,
            timestamp: unix_timestamp,
        },
    )
}

} // verus!
