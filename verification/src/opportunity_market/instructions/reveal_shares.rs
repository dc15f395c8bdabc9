//! Revealing a stake once staking is over: queued by [`reveal_shares`],
//! settled by [`reveal_shares_callback`]. Anyone may reveal anyone's stake.

use vstd::prelude::*;
use crate::arguments::{
    account, build, builder_arguments, new_builder, plaintext_bool, plaintext_u128, x25519_pubkey,
    Argument,
};
use crate::computation::{
    current_timestamp, queue_computation, timestamp_of, writable, Account, CallbackAccount,
    CallbackOutcome, ComputationRequest, EncryptedOutput, Failure, VerificationFailed,
};
use crate::opportunity_market::error::ErrorCode;
use crate::opportunity_market::events::{SharesRevealedError, SharesRevealedEvent};
use crate::opportunity_market::state::{EncryptedTokenAccount, OpportunityMarket, ShareAccount};
use crate::pubkey::Pubkey;

verus! {

/// The accounts of [`reveal_shares`].
#[derive(Debug)]
pub struct RevealShares {
    pub signer: Pubkey,
    /// The owner of the share account. Need not be the signer.
    pub owner: Pubkey,
    pub market: Account<OpportunityMarket>,
    pub share_account: Account<ShareAccount>,
    pub user_eta: Account<EncryptedTokenAccount>,
}

/// The accounts of [`reveal_shares_callback`].
#[derive(Debug)]
pub struct RevealSharesCallback {
    pub share_account: Account<ShareAccount>,
    pub user_eta: Account<EncryptedTokenAccount>,
}

/// What the reveal circuit returns. It has no error flag.
#[derive(Clone, Copy, Debug, PartialEq, Eq)]
pub struct RevealSharesOutput {
    pub revealed_amount: u64,
    pub revealed_option: u16,
    pub new_user_balance: EncryptedOutput<1>,
}

impl OpportunityMarket {
    /// The first second at which stakes may be revealed. A window that ends
    /// beyond 64 bits ends at the last second there is.
    pub open spec fn reveal_start(self) -> u64 {
        let end = self.open_timestamp->0 + self.time_to_stake;
        if end > u64::MAX {
            u64::MAX
        } else {
            end as u64
        }
    }
}

impl RevealShares {
    /// Why the reveal is rejected, if it is. The first check that fails
    /// decides.
    pub open spec fn rejection(self, unix_timestamp: i64) -> Option<ErrorCode> {
        if self.share_account.data.revealed_amount is Some {
            Some(ErrorCode::AlreadyRevealed)
        } else if self.share_account.data.locked {
            Some(ErrorCode::Locked)
        } else if self.user_eta.data.locked {
            Some(ErrorCode::Locked)
        } else if self.user_eta.data.owner != self.owner {
            Some(ErrorCode::Unauthorized)
        } else if self.market.data.mint != self.user_eta.data.token_mint {
            Some(ErrorCode::InvalidMint)
        } else if self.market.data.open_timestamp is None {
            Some(ErrorCode::MarketNotOpen)
        } else if timestamp_of(unix_timestamp) < self.market.data.reveal_start() {
            Some(ErrorCode::MarketNotResolved)
        } else {
            None
        }
    }

    /// Whether the callback will write the balance: a stake that was
    /// withdrawn early has been refunded already.
    pub open spec fn credits_balance(self) -> bool {
        self.share_account.data.unstaked_at_timestamp is None
    }

    /// The accounts after an accepted reveal: the share account is locked,
    /// and so is the balance if the callback will write it.
    pub open spec fn submitted(self) -> RevealShares {
        RevealShares {
            share_account: Account {
                data: ShareAccount { locked: true, ..self.share_account.data },
                ..self.share_account
            },
            user_eta: Account {
                data: EncryptedTokenAccount {
                    locked: self.credits_balance(),
                    ..self.user_eta.data
                },
                ..self.user_eta
            },
            ..self
        }
    }

    /// The arguments of the reveal: the shares and the balance as stored,
    /// and whether the balance has been written before.
    pub open spec fn arguments(self) -> Seq<Argument> {
        let user_pubkey = self.user_eta.data.user_pubkey@;
        seq![
            Argument::X25519Pubkey(user_pubkey),
            Argument::PlaintextU128(self.share_account.data.state_nonce),
            Argument::Account { pubkey: self.share_account.key.bytes@, offset: 8, length: 64 },
            Argument::X25519Pubkey(user_pubkey),
            Argument::PlaintextU128(self.user_eta.data.state_nonce),
            Argument::Account { pubkey: self.user_eta.key.bytes@, offset: 8, length: 32 },
            Argument::PlaintextBool(self.user_eta.data.is_initialized),
        ]
    }

    /// The accounts the callback may write: the share account, then the
    /// balance.
    pub open spec fn callback_accounts(self) -> Seq<CallbackAccount> {
        seq![
            CallbackAccount { pubkey: self.share_account.key, is_writable: true },
            CallbackAccount { pubkey: self.user_eta.key, is_writable: true },
        ]
    }
}

/// Queues the reveal of a stake.
///
/// Accepted when the stake is not revealed yet, neither account is locked,
/// the balance is the share owner's and in the market's mint, and the
/// staking window is over. A rejected reveal changes nothing.
pub fn reveal_shares(
    ctx: &mut RevealShares,
    unix_timestamp: i64,
    computation_offset: u64,
    _share_account_id: u32,
) -> (result: Result<ComputationRequest, ErrorCode>)
    ensures
        match result {
            Ok(request) => {
                &&& old(ctx).rejection(unix_timestamp) is None
                &&& *final(ctx) == old(ctx).submitted()
                &&& request.describes(
                    "reveal_shares"@,
                    computation_offset,
                    old(ctx).arguments(),
                    old(ctx).callback_accounts(),
                )
            },
            Err(e) => old(ctx).rejection(unix_timestamp) == Some(e) && *final(ctx) == *old(ctx),
        },
{
    if ctx.share_account.data.revealed_amount.is_some() {
        return Err(ErrorCode::AlreadyRevealed);
    }
    if ctx.share_account.data.locked {
        return Err(ErrorCode::Locked);
    }
    if ctx.user_eta.data.locked {
        return Err(ErrorCode::Locked);
    }
    if ctx.user_eta.data.owner != ctx.owner {
        return Err(ErrorCode::Unauthorized);
    }
    if ctx.market.data.mint != ctx.user_eta.data.token_mint {
        return Err(ErrorCode::InvalidMint);
    }
    let now = current_timestamp(unix_timestamp);
    let reveal_start = match ctx.market.data.open_timestamp {
        Some(open) => open.saturating_add(ctx.market.data.time_to_stake),
        None => return Err(ErrorCode::MarketNotOpen),
    };
    if now < reveal_start {
        return Err(ErrorCode::MarketNotResolved);
    }
    let user_pubkey = ctx.user_eta.data.user_pubkey;
    let share_account_key = ctx.share_account.key;
    let share_account_nonce = ctx.share_account.data.state_nonce;
    let user_eta_key = ctx.user_eta.key;
    let user_eta_nonce = ctx.user_eta.data.state_nonce;

    ctx.share_account.data.locked = true;
    if ctx.share_account.data.unstaked_at_timestamp.is_none() {
        ctx.user_eta.data.locked = true;
    }
    let is_eta_initialized = ctx.user_eta.data.is_initialized;
    let builder = new_builder();
    let builder = x25519_pubkey(builder, user_pubkey);
    let builder = plaintext_u128(builder, share_account_nonce);
    let builder = account(builder, share_account_key, 8, 32 * 2);
    let builder = x25519_pubkey(builder, user_pubkey);
    let builder = plaintext_u128(builder, user_eta_nonce);
    let builder = account(builder, user_eta_key, 8, 32 * 1);
    let builder = plaintext_bool(builder, is_eta_initialized);
    assert(builder_arguments(builder) =~= old(ctx).arguments());
    let args = build(builder);

    let mut callback_accounts: Vec<CallbackAccount> = Vec::new();
    callback_accounts.push(writable(share_account_key));
    callback_accounts.push(writable(user_eta_key));
    assert(callback_accounts@ =~= old(ctx).callback_accounts());
    Ok(queue_computation("reveal_shares", computation_offset, args, callback_accounts))
}

impl RevealSharesCallback {
    /// Why the result is not applied, if it is not: the circuit cannot
    /// decline, so only a result that does not verify.
    pub open spec fn failure(output: Result<RevealSharesOutput, VerificationFailed>) -> Option<
        Failure,
    > {
        match output {
            Err(_) => Some(Failure::VerificationFailed),
            Ok(_) => None,
        }
    }

    /// Whether this callback is the one that holds the lock on the balance.
    pub open spec fn credits_balance(self) -> bool {
        self.share_account.data.unstaked_at_timestamp is None
    }

    /// The accounts after the callback. The share account is unlocked, and
    /// the balance too if the reveal had locked it. An applied result records
    /// the amount and the option, and credits the balance unless the stake
    /// was withdrawn early.
    pub open spec fn settled(
        self,
        output: Result<RevealSharesOutput, VerificationFailed>,
    ) -> RevealSharesCallback {
        let share = ShareAccount { locked: false, ..self.share_account.data };
        let eta = if self.credits_balance() {
            EncryptedTokenAccount { locked: false, ..self.user_eta.data }
        } else {
            self.user_eta.data
        };
        match output {
            Err(_) => RevealSharesCallback {
                share_account: Account { data: share, ..self.share_account },
                user_eta: Account { data: eta, ..self.user_eta },
            },
            Ok(res) => RevealSharesCallback {
                share_account: Account {
                    data: ShareAccount {
                        revealed_amount: Some(res.revealed_amount),
                        revealed_option: Some(res.revealed_option),
                        ..share
                    },
                    ..self.share_account
                },
                user_eta: Account {
                    data: if self.credits_balance() {
                        EncryptedTokenAccount {
                            state_nonce: res.new_user_balance.nonce,
                            encrypted_state: res.new_user_balance.ciphertexts,
                            is_initialized: true,
                            ..eta
                        }
                    } else {
                        eta
                    },
                    ..self.user_eta
                },
            },
        }
    }

    /// What the callback reports.
    pub open spec fn outcome(
        self,
        unix_timestamp: i64,
        output: Result<RevealSharesOutput, VerificationFailed>,
    ) -> CallbackOutcome<SharesRevealedEvent, SharesRevealedError> {
        let user = self.user_eta.data.owner;
        match output {
            Err(_) => CallbackOutcome::RolledBack(
                Failure::VerificationFailed,
                SharesRevealedError { user, timestamp: unix_timestamp },
            ),
            Ok(res) => CallbackOutcome::Applied(
                SharesRevealedEvent {
                    user,
                    encrypted_token_account: self.user_eta.key,
                    share_account: self.share_account.key,
                    shares_amount: res.revealed_amount,
                    selected_option: res.revealed_option,
                    encrypted_new_balance: res.new_user_balance.ciphertexts[0],
                    nonce: res.new_user_balance.nonce,
                    timestamp: unix_timestamp,
                },
            ),
        }
    }
}

/// Settles the reveal of a stake.
///
/// The accounts the reveal had locked are unlocked before the result is
/// looked at. A result that did not verify is reported as a failure and the
/// transaction still succeeds. Otherwise the amount and the option are
/// recorded in the clear, and the balance is credited unless the stake was
/// withdrawn early.
pub fn reveal_shares_callback(
    ctx: &mut RevealSharesCallback,
    unix_timestamp: i64,
    output: Result<RevealSharesOutput, VerificationFailed>,
) -> (outcome: CallbackOutcome<SharesRevealedEvent, SharesRevealedError>)
    ensures
        *final(ctx) == old(ctx).settled(output),
        outcome == old(ctx).outcome(unix_timestamp, output),
{
    let credits_balance = ctx.share_account.data.unstaked_at_timestamp.is_none();
    ctx.share_account.data.locked = false;
    if credits_balance {
        ctx.user_eta.data.locked = false;
    }
    let user = ctx.user_eta.data.owner;
    let res = match output {
        Ok(res) => res,
        Err(_) => {
            return CallbackOutcome::RolledBack(
                Failure::VerificationFailed,
                SharesRevealedError { user, timestamp: unix_timestamp },
            );
        },
    };
    let revealed_amount = res.revealed_amount;
    let revealed_option = res.revealed_option;
    let new_user_balance = res.new_user_balance;

    ctx.share_account.data.revealed_amount = Some(revealed_amount);
    ctx.share_account.data.revealed_option = Some(revealed_option);

    if credits_balance {
        ctx.user_eta.data.state_nonce = new_user_balance.nonce;
        ctx.user_eta.data.encrypted_state = new_user_balance.ciphertexts;
        ctx.user_eta.data.is_initialized = true;
    }
    CallbackOutcome::Applied(
        SharesRevealedEvent {
            user,
            encrypted_token_account: ctx.user_eta.key,
            share_account: ctx.share_account.key,
            shares_amount: revealed_amount,
            selected_option: revealed_option,
            encrypted_new_balance: new_user_balance.ciphertexts[0],
            nonce: new_user_balance.nonce,
            timestamp: unix_timestamp,
        },
    )
}

} // verus!
