//! Withdrawing a stake while staking is still open: queued by
//! [`unstake_early`], settled by [`unstake_early_callback`].

use vstd::prelude::*;
use crate::arguments::{
    account, build, builder_arguments, new_builder, plaintext_bool, plaintext_u128, x25519_pubkey,
    Argument,
};
use crate::computation::{
    current_timestamp, queue_computation, timestamp_of, writable, Account, CallbackAccount,
    CallbackOutcome, ComputationRequest, EncryptedOutput, Failure, VerificationFailed,
};
use crate::opportunity_market::error::ErrorCode;
use crate::opportunity_market::events::{SharesUnstakedError, SharesUnstakedEvent};
use crate::opportunity_market::state::{EncryptedTokenAccount, OpportunityMarket, ShareAccount};
use crate::pubkey::Pubkey;

verus! {

/// The accounts of [`unstake_early`].
#[derive(Debug)]
pub struct UnstakeEarly {
    pub signer: Pubkey,
    pub market: Account<OpportunityMarket>,
    pub user_eta: Account<EncryptedTokenAccount>,
    pub share_account: Account<ShareAccount>,
}

/// The accounts of [`unstake_early_callback`].
#[derive(Debug)]
pub struct UnstakeEarlyCallback {
    pub user_eta: Account<EncryptedTokenAccount>,
    pub share_account: Account<ShareAccount>,
}

impl UnstakeEarly {
    /// Why the withdrawal is rejected, if it is. The first check that fails
    /// decides.
    pub open spec fn rejection(self, unix_timestamp: i64) -> Option<ErrorCode> {
        if self.market.data.open_timestamp is None {
            Some(ErrorCode::MarketNotOpen)
        } else if self.market.data.selected_option is Some {
            Some(ErrorCode::WinnerAlreadySelected)
        } else if self.user_eta.data.owner != self.signer {
            Some(ErrorCode::Unauthorized)
        } else if self.user_eta.data.locked {
            Some(ErrorCode::Locked)
        } else if self.share_account.data.unstaked_at_timestamp is Some {
            Some(ErrorCode::AlreadyUnstaked)
        } else if self.share_account.data.locked {
            Some(ErrorCode::Locked)
        } else if self.market.data.mint != self.user_eta.data.token_mint {
            Some(ErrorCode::InvalidMint)
        } else {
            self.market.data.staking_rejection(timestamp_of(unix_timestamp))
        }
    }

    /// The accounts after an accepted withdrawal: both are locked.
    pub open spec fn submitted(self) -> UnstakeEarly {
        UnstakeEarly {
            user_eta: Account {
                data: EncryptedTokenAccount { locked: true, ..self.user_eta.data },
                ..self.user_eta
            },
            share_account: Account {
                data: ShareAccount { locked: true, ..self.share_account.data },
                ..self.share_account
            },
            ..self
        }
    }

    /// The arguments of the refund: the shares and the balance as stored,
    /// and whether the balance has been written before, which is told by its
    /// nonce.
    pub open spec fn arguments(self) -> Seq<Argument> {
        let user_pubkey = self.user_eta.data.user_pubkey@;
        seq![
            Argument::X25519Pubkey(user_pubkey),
            Argument::PlaintextU128(self.share_account.data.state_nonce),
            Argument::Account { pubkey: self.share_account.key.bytes@, offset: 8, length: 64 },
            Argument::X25519Pubkey(user_pubkey),
            Argument::PlaintextU128(self.user_eta.data.state_nonce),
            Argument::Account { pubkey: self.user_eta.key.bytes@, offset: 8, length: 32 },
            Argument::PlaintextBool(self.user_eta.data.state_nonce != 0),
        ]
    }

    /// The accounts the callback may write: the balance, then the share
    /// account.
    pub open spec fn callback_accounts(self) -> Seq<CallbackAccount> {
        seq![
            CallbackAccount { pubkey: self.user_eta.key, is_writable: true },
            CallbackAccount { pubkey: self.share_account.key, is_writable: true },
        ]
    }
}

/// Queues the refund of a stake.
///
/// Accepted when the market is open and undecided, the balance is the
/// signer's, in the market's mint and not locked, the stake is not withdrawn
/// yet and its account not locked, and the clock stands in the staking
/// window. A rejected withdrawal changes nothing.
pub fn unstake_early(
    ctx: &mut UnstakeEarly,
    unix_timestamp: i64,
    computation_offset: u64,
    _share_account_id: u32,
) -> (result: Result<ComputationRequest, ErrorCode>)
    ensures
        match result {
            Ok(request) => {
                &&& old(ctx).rejection(unix_timestamp) is None
                &&& *final(ctx) == old(ctx).submitted()
                &&& request.describes(
                    "unstake_early"@,
                    computation_offset,
                    old(ctx).arguments(),
                    old(ctx).callback_accounts(),
                )
            },
            Err(e) => old(ctx).rejection(unix_timestamp) == Some(e) && *final(ctx) == *old(ctx),
        },
{
    if ctx.market.data.open_timestamp.is_none() {
        return Err(ErrorCode::MarketNotOpen);
    }
    if ctx.market.data.selected_option.is_some() {
        return Err(ErrorCode::WinnerAlreadySelected);
    }
    if ctx.user_eta.data.owner != ctx.signer {
        return Err(ErrorCode::Unauthorized);
    }
    if ctx.user_eta.data.locked {
        return Err(ErrorCode::Locked);
    }
    if ctx.share_account.data.unstaked_at_timestamp.is_some() {
        return Err(ErrorCode::AlreadyUnstaked);
    }
    if ctx.share_account.data.locked {
        return Err(ErrorCode::Locked);
    }
    if ctx.market.data.mint != ctx.user_eta.data.token_mint {
        return Err(ErrorCode::InvalidMint);
    }
    let now = current_timestamp(unix_timestamp);
    match ctx.market.data.require_staking_active(now) {
        Ok(_) => {},
        Err(e) => return Err(e),
    }
    let user_pubkey = ctx.user_eta.data.user_pubkey;
    let share_account_key = ctx.share_account.key;
    let share_account_nonce = ctx.share_account.data.state_nonce;
    let user_eta_key = ctx.user_eta.key;
    let user_eta_nonce = ctx.user_eta.data.state_nonce;

    ctx.user_eta.data.locked = true;
    ctx.share_account.data.locked = true;

    let is_eta_initialized = user_eta_nonce != 0;
    let builder = new_builder();
    let builder = x25519_pubkey(builder, user_pubkey);
    let builder = plaintext_u128(builder, share_account_nonce);
    let builder = account(builder, share_account_key, 8, 32 * 2);
    let builder = x25519_pubkey(builder, user_pubkey);
    let builder = plaintext_u128(builder, user_eta_nonce);
    let builder = account(builder, user_eta_key, 8, 32 * 1);
    let builder = plaintext_bool(builder, is_eta_initialized);
    assert(builder_arguments(builder) =~= old(ctx).arguments());
    let args = build(builder);

    let mut callback_accounts: Vec<CallbackAccount> = Vec::new();
    callback_accounts.push(writable(user_eta_key));
    callback_accounts.push(writable(share_account_key));
    assert(callback_accounts@ =~= old(ctx).callback_accounts());
    Ok(queue_computation("unstake_early", computation_offset, args, callback_accounts))
}

impl UnstakeEarlyCallback {
    /// Why the result is not applied, if it is not: the circuit cannot
    /// decline, so only a result that does not verify.
    pub open spec fn failure(output: Result<EncryptedOutput<1>, VerificationFailed>) -> Option<
        Failure,
    > {
        match output {
            Err(_) => Some(Failure::VerificationFailed),
            Ok(_) => None,
        }
    }

    /// The accounts after the callback. Both are unlocked whatever the
    /// result. An applied result marks the stake as withdrawn at
    /// `unix_timestamp` and replaces the balance.
    pub open spec fn settled(
        self,
        unix_timestamp: i64,
        output: Result<EncryptedOutput<1>, VerificationFailed>,
    ) -> UnstakeEarlyCallback {
        let eta = EncryptedTokenAccount { locked: false, ..self.user_eta.data };
        let share = ShareAccount { locked: false, ..self.share_account.data };
        match output {
            Err(_) => UnstakeEarlyCallback {
                user_eta: Account { data: eta, ..self.user_eta },
                share_account: Account { data: share, ..self.share_account },
            },
            Ok(new_user_balance) => UnstakeEarlyCallback {
                user_eta: Account {
                    data: EncryptedTokenAccount {
                        state_nonce: new_user_balance.nonce,
                        encrypted_state: new_user_balance.ciphertexts,
                        ..eta
                    },
                    ..self.user_eta
                },
                share_account: Account {
                    data: ShareAccount {
                        unstaked_at_timestamp: Some(timestamp_of(unix_timestamp)),
                        ..share
                    },
                    ..self.share_account
                },
            },
        }
    }

    /// What the callback reports.
    pub open spec fn outcome(
        self,
        unix_timestamp: i64,
        output: Result<EncryptedOutput<1>, VerificationFailed>,
    ) -> CallbackOutcome<SharesUnstakedEvent, SharesUnstakedError> {
        let user = self.user_eta.data.owner;
        match output {
            Err(_) => CallbackOutcome::RolledBack(
                Failure::VerificationFailed,
                SharesUnstakedError { user, timestamp: unix_timestamp },
            ),
            Ok(new_user_balance) => CallbackOutcome::Applied(
                SharesUnstakedEvent {
                    user,
                    market: self.share_account.data.market,
                    encrypted_token_account: self.user_eta.key,
                    share_account: self.share_account.key,
                    encrypted_new_balance: new_user_balance.ciphertexts[0],
                    nonce: new_user_balance.nonce,
                    timestamp: unix_timestamp,
                },
            ),
        }
    }
}

/// Settles the refund of a stake.
///
/// Both accounts are unlocked before the result is looked at. A result that
/// did not verify is reported as a failure and the transaction still
/// succeeds. Otherwise the stake is marked as withdrawn now and the refunded
/// balance is written.
pub fn unstake_early_callback(
    ctx: &mut UnstakeEarlyCallback,
    unix_timestamp: i64,
    output: Result<EncryptedOutput<1>, VerificationFailed>,
) -> (outcome: CallbackOutcome<SharesUnstakedEvent, SharesUnstakedError>)
    ensures
        *final(ctx) == old(ctx).settled(unix_timestamp, output),
        outcome == old(ctx).outcome(unix_timestamp, output),
{
    ctx.user_eta.data.locked = false;
    ctx.share_account.data.locked = false;
    let user = ctx.user_eta.data.owner;

    let new_user_balance = match output {
        Ok(balance) => balance,
        Err(_) => {
            return CallbackOutcome::RolledBack(
                Failure::VerificationFailed,
                SharesUnstakedError { user, timestamp: unix_timestamp },
            );
        },
    };
    ctx.share_account.data.unstaked_at_timestamp = Some(current_timestamp(unix_timestamp));

    ctx.user_eta.data.state_nonce = new_user_balance.nonce;
    ctx.user_eta.data.encrypted_state = new_user_balance.ciphertexts;

    CallbackOutcome::Applied(
        SharesUnstakedEvent {
            user,
            market: ctx.share_account.data.market,
            encrypted_token_account: ctx.user_eta.key,
            share_account: ctx.share_account.key,
            encrypted_new_balance: new_user_balance.ciphertexts[0],
            nonce: new_user_balance.nonce,
            timestamp: unix_timestamp,
        },
    )
}

} // verus!
