//! Depositing tokens into an encrypted balance: queued by
//! [`wrap_encrypted_tokens`], settled by [`wrap_encrypted_tokens_callback`].
//!
//! The tokens move into the vault with the submit. Until a callback credits
//! them they are counted in the account's pending deposit, from where
//! `claim_pending_deposit` pays them back.

use vstd::prelude::*;
use crate::arguments::{
    account, build, builder_arguments, new_builder, plaintext_bool, plaintext_u128, plaintext_u64,
    x25519_pubkey, Argument,
};
use crate::computation::{
    queue_computation, writable, Account, CallbackAccount, CallbackFailedEvent, CallbackOutcome,
    ComputationRequest, EncryptedOutput, Failure, TokenTransfer, VerificationFailed,
};
use crate::opportunity_market::error::ErrorCode;
use crate::opportunity_market::events::EncryptedTokenWrappedEvent;
use crate::opportunity_market::state::{EncryptedTokenAccount, TokenVault};
use crate::pubkey::Pubkey;

verus! {

/// The accounts of [`wrap_encrypted_tokens`].
#[derive(Debug)]
pub struct WrapEncryptedTokens {
    pub signer: Pubkey,
    pub token_mint: Pubkey,
    pub encrypted_token_account: Account<EncryptedTokenAccount>,
    /// The signer's token account, from which the deposit is taken.
    pub signer_token_account: Pubkey,
    pub token_vault: Account<TokenVault>,
    /// The vault's token account, which receives the deposit.
    pub token_vault_ata: Pubkey,
}

/// The accounts of [`wrap_encrypted_tokens_callback`].
#[derive(Debug)]
pub struct WrapEncryptedTokensCallback {
    pub encrypted_token_account: Account<EncryptedTokenAccount>,
}

/// What an accepted deposit leaves to do: move the tokens, then queue the
/// computation.
#[derive(Debug)]
pub struct WrapSubmission {
    pub transfer: TokenTransfer,
    pub request: ComputationRequest,
}

impl WrapEncryptedTokens {
    /// Why the deposit is rejected, if it is. The first check that fails
    /// decides.
    pub open spec fn rejection(self, amount: u64) -> Option<ErrorCode> {
        let eta = self.encrypted_token_account.data;
        if eta.owner != self.signer {
            Some(ErrorCode::Unauthorized)
        } else if eta.token_mint != self.token_mint {
            Some(ErrorCode::InvalidMint)
        } else if eta.locked {
            Some(ErrorCode::Locked)
        } else if eta.pending_deposit + amount > u64::MAX {
            Some(ErrorCode::Overflow)
        } else {
            None
        }
    }

    /// The accounts after an accepted deposit: the amount is pending and the
    /// balance is locked.
    pub open spec fn submitted(self, amount: u64) -> WrapEncryptedTokens {
        let eta = self.encrypted_token_account;
        WrapEncryptedTokens {
            encrypted_token_account: Account {
                data: EncryptedTokenAccount {
                    pending_deposit: (eta.data.pending_deposit + amount) as u64,
                    locked: true,
                    ..eta.data
                },
                ..eta
            },
            ..self
        }
    }

    /// The move of the deposit into the vault.
    pub open spec fn deposit(self, amount: u64) -> TokenTransfer {
        TokenTransfer {
            from: self.signer_token_account,
            to: self.token_vault_ata,
            authority: self.signer,
            amount,
        }
    }

    /// The arguments of the credit: the balance as stored, whether it has
    /// been written before, which is told by its nonce, and the amount.
    pub open spec fn arguments(self, amount: u64) -> Seq<Argument> {
        let eta = self.encrypted_token_account;
        seq![
            Argument::X25519Pubkey(eta.data.user_pubkey@),
            Argument::PlaintextU128(eta.data.state_nonce),
            Argument::Account { pubkey: eta.key.bytes@, offset: 8, length: 32 },
            Argument::PlaintextBool(eta.data.state_nonce != 0),
            Argument::PlaintextU64(amount),
        ]
    }

    /// The one account the callback may write: the balance.
    pub open spec fn callback_accounts(self) -> Seq<CallbackAccount> {
        seq![CallbackAccount { pubkey: self.encrypted_token_account.key, is_writable: true }]
    }
}

/// Queues the credit of `amount` tokens to the signer's encrypted balance.
///
/// Accepted when the balance is the signer's, in the given mint and not
/// locked, and the pending deposit has room for the amount. The amount is
/// then pending, the balance is locked, and the tokens are to be moved into
/// the vault. A rejected deposit changes nothing.
pub fn wrap_encrypted_tokens(
    ctx: &mut WrapEncryptedTokens,
    computation_offset: u64,
    amount: u64,
) -> (result: Result<WrapSubmission, ErrorCode>)
    ensures
        match result {
            Ok(submission) => {
                &&& old(ctx).rejection(amount) is None
                &&& *final(ctx) == old(ctx).submitted(amount)
                &&& submission.transfer == old(ctx).deposit(amount)
                &&& submission.request.describes(
                    "wrap_encrypted_tokens"@,
                    computation_offset,
                    old(ctx).arguments(amount),
                    old(ctx).callback_accounts(),
                )
            },
            Err(e) => old(ctx).rejection(amount) == Some(e) && *final(ctx) == *old(ctx),
        },
{
    if ctx.encrypted_token_account.data.owner != ctx.signer {
        return Err(ErrorCode::Unauthorized);
    }
    if ctx.encrypted_token_account.data.token_mint != ctx.token_mint {
        return Err(ErrorCode::InvalidMint);
    }
    if ctx.encrypted_token_account.data.locked {
        return Err(ErrorCode::Locked);
    }
    let user_pubkey = ctx.encrypted_token_account.data.user_pubkey;
    let eta_pubkey = ctx.encrypted_token_account.key;
    let transfer = TokenTransfer {
        from: ctx.signer_token_account,
        to: ctx.token_vault_ata,
        authority: ctx.signer,
        amount,
    };
    let pending_deposit = match ctx.encrypted_token_account.data.pending_deposit.checked_add(
        amount,
    ) {
        Some(sum) => sum,
        None => return Err(ErrorCode::Overflow),
    };
    ctx.encrypted_token_account.data.pending_deposit = pending_deposit;
    ctx.encrypted_token_account.data.locked = true;

    let state_nonce = ctx.encrypted_token_account.data.state_nonce;
    let is_initialized = state_nonce != 0;
    let builder = new_builder();
    let builder = x25519_pubkey(builder, user_pubkey);
    let builder = plaintext_u128(builder, state_nonce);
    let builder = account(builder, eta_pubkey, 8, 32 * 1);
    let builder = plaintext_bool(builder, is_initialized);
    let builder = plaintext_u64(builder, amount);
    assert(builder_arguments(builder) =~= old(ctx).arguments(amount));
    let args = build(builder);

    let mut callback_accounts: Vec<CallbackAccount> = Vec::new();
    callback_accounts.push(writable(eta_pubkey));
    assert(callback_accounts@ =~= old(ctx).callback_accounts());
    Ok(
        WrapSubmission {
            transfer,
            request: queue_computation(
                "wrap_encrypted_tokens",
                computation_offset,
                args,
                callback_accounts,
            ),
        },
    )
}

impl WrapEncryptedTokensCallback {
    /// Why the result is not applied, if it is not: it did not verify, or
    /// there is no deposit for it to credit, because nothing is pending or
    /// the account is not locked.
    pub open spec fn failure(
        self,
        output: Result<EncryptedOutput<1>, VerificationFailed>,
    ) -> Option<Failure> {
        let eta = self.encrypted_token_account.data;
        match output {
            Err(_) => Some(Failure::VerificationFailed),
            Ok(_) => if eta.pending_deposit > 0 && eta.locked {
                None
            } else {
                Some(Failure::Declined)
            },
        }
    }

    /// The accounts after the callback. The balance is unlocked whatever the
    /// result. An applied result replaces the balance and clears the pending
    /// deposit; otherwise the pending deposit stays, to be claimed back.
    pub open spec fn settled(
        self,
        output: Result<EncryptedOutput<1>, VerificationFailed>,
    ) -> WrapEncryptedTokensCallback {
        let eta = EncryptedTokenAccount { locked: false, ..self.encrypted_token_account.data };
        WrapEncryptedTokensCallback {
            encrypted_token_account: Account {
                data: if self.failure(output) is Some {
                    eta
                } else {
                    EncryptedTokenAccount {
                        pending_deposit: 0,
                        state_nonce: output->Ok_0.nonce,
                        encrypted_state: output->Ok_0.ciphertexts,
                        ..eta
                    }
                },
                ..self.encrypted_token_account
            },
        }
    }

    /// What the callback reports.
    pub open spec fn outcome(
        self,
        unix_timestamp: i64,
        output: Result<EncryptedOutput<1>, VerificationFailed>,
    ) -> CallbackOutcome<EncryptedTokenWrappedEvent, CallbackFailedEvent> {
        let eta = self.encrypted_token_account;
        match self.failure(output) {
            Some(failure) => CallbackOutcome::RolledBack(
                failure,
                CallbackFailedEvent { account: eta.key, timestamp: unix_timestamp },
            ),
            None => CallbackOutcome::Applied(
                EncryptedTokenWrappedEvent {
                    encrypted_token_account: eta.key,
                    user: eta.data.owner,
                    deposit_amount: eta.data.pending_deposit,
                    encrypted_new_balance: output->Ok_0.ciphertexts[0],
                    nonce: output->Ok_0.nonce,
                    timestamp: unix_timestamp,
                },
            ),
        }
    }
}

/// Settles a deposit.
///
/// The balance is unlocked before the result is looked at. A result that did
/// not verify is reported as a failure; so is one that finds no deposit
/// pending under a lock. In both cases the balance and the pending deposit
/// stay as they are and the transaction still succeeds.
/// Otherwise the credited balance is written and the pending deposit
/// cleared.
pub fn wrap_encrypted_tokens_callback(
    ctx: &mut WrapEncryptedTokensCallback,
    unix_timestamp: i64,
    output: Result<EncryptedOutput<1>, VerificationFailed>,
) -> (outcome: CallbackOutcome<EncryptedTokenWrappedEvent, CallbackFailedEvent>)
    ensures
        *final(ctx) == old(ctx).settled(output),
        outcome == old(ctx).outcome(unix_timestamp, output),
{
    let deposit_is_pending = ctx.encrypted_token_account.data.pending_deposit > 0
        && ctx.encrypted_token_account.data.locked;
    ctx.encrypted_token_account.data.locked = false;
    let user = ctx.encrypted_token_account.data.owner;
    let account = ctx.encrypted_token_account.key;

    let encrypted_balance = match output {
        Ok(balance) => balance,
        Err(_) => {
            return CallbackOutcome::RolledBack(
                Failure::VerificationFailed,
                CallbackFailedEvent { account, timestamp: unix_timestamp },
            );
        },
    };
    if !deposit_is_pending {
        return CallbackOutcome::RolledBack(
            Failure::Declined,
            CallbackFailedEvent { account, timestamp: unix_timestamp },
        );
    }
    let deposit_amount = ctx.encrypted_token_account.data.pending_deposit;
    ctx.encrypted_token_account.data.pending_deposit = 0;

    ctx.encrypted_token_account.data.state_nonce = encrypted_balance.nonce;
    ctx.encrypted_token_account.data.encrypted_state = encrypted_balance.ciphertexts;

    CallbackOutcome::Applied(
        EncryptedTokenWrappedEvent {
            encrypted_token_account: ctx.encrypted_token_account.key,
            user,
            deposit_amount,
            encrypted_new_balance: encrypted_balance.ciphertexts[0],
            nonce: encrypted_balance.nonce,
            timestamp: unix_timestamp,
        },
    )
}

} // verus!
