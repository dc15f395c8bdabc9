//! Withdrawing tokens from an encrypted balance: queued by
//! [`unwrap_encrypted_tokens`], settled by
//! [`unwrap_encrypted_tokens_callback`].

use vstd::prelude::*;
use crate::arguments::{
    account, build, builder_arguments, new_builder, plaintext_u128, plaintext_u64, x25519_pubkey,
    Argument,
};
use crate::computation::{
    queue_computation, read_only, writable, Account, CallbackAccount, CallbackOutcome,
    ComputationRequest, EncryptedOutput, Failure, TokenTransfer, VerificationFailed,
};
use crate::opportunity_market::error::ErrorCode;
use crate::opportunity_market::events::{
    EncryptedTokensUnwrappedError, EncryptedTokensUnwrappedEvent,
};
use crate::opportunity_market::state::{EncryptedTokenAccount, TokenVault};
use crate::pubkey::Pubkey;

verus! {

/// The accounts of [`unwrap_encrypted_tokens`].
#[derive(Debug)]
pub struct UnwrapEncryptedTokens {
    pub signer: Pubkey,
    pub token_mint: Pubkey,
    pub encrypted_token_account: Account<EncryptedTokenAccount>,
    pub token_vault: Account<TokenVault>,
    /// The vault's token account, from which withdrawals are paid.
    pub token_vault_ata: Pubkey,
    /// The signer's token account, to which the withdrawal is paid.
    pub user_token_account: Pubkey,
    pub token_program: Pubkey,
}

/// The accounts of [`unwrap_encrypted_tokens_callback`].
#[derive(Debug)]
pub struct UnwrapEncryptedTokensCallback {
    pub encrypted_token_account: Account<EncryptedTokenAccount>,
    pub user_token_account: Pubkey,
    pub token_vault: Account<TokenVault>,
    pub token_vault_ata: Pubkey,
    pub token_mint: Pubkey,
}

/// What the withdrawal circuit returns.
#[derive(Clone, Copy, Debug, PartialEq, Eq)]
pub struct UnwrapEncryptedTokensOutput {
    /// The balance did not cover the withdrawal.
    pub error: bool,
    /// The tokens to pay out.
    pub amount_sold: u64,
    pub new_balance: EncryptedOutput<1>,
}

/// What an applied withdrawal leaves to do and to report.
#[derive(Clone, Copy, Debug, PartialEq, Eq)]
pub struct Unwrapped {
    /// The payment out of the vault, if any tokens were sold.
    pub transfer: Option<TokenTransfer>,
    pub event: EncryptedTokensUnwrappedEvent,
}

impl UnwrapEncryptedTokens {
    /// Why the withdrawal is rejected, if it is. The first check that fails
    /// decides.
    pub open spec fn rejection(self) -> Option<ErrorCode> {
        if self.encrypted_token_account.data.owner != self.signer {
            Some(ErrorCode::Unauthorized)
        } else if self.encrypted_token_account.data.token_mint != self.token_mint {
            Some(ErrorCode::InvalidMint)
        } else if self.encrypted_token_account.data.locked {
            Some(ErrorCode::Locked)
        } else {
            None
        }
    }

    /// The accounts after an accepted withdrawal: the balance is locked.
    pub open spec fn submitted(self) -> UnwrapEncryptedTokens {
        UnwrapEncryptedTokens {
            encrypted_token_account: Account {
                data: EncryptedTokenAccount { locked: true, ..self.encrypted_token_account.data },
                ..self.encrypted_token_account
            },
            ..self
        }
    }

    /// The arguments of the withdrawal: the balance as stored, and the
    /// amount in the clear.
    pub open spec fn arguments(self, amount: u64) -> Seq<Argument> {
        let eta = self.encrypted_token_account;
        seq![
            Argument::X25519Pubkey(eta.data.user_pubkey@),
            Argument::PlaintextU128(eta.data.state_nonce),
            Argument::Account { pubkey: eta.key.bytes@, offset: 8, length: 32 },
            Argument::PlaintextU64(amount),
        ]
    }

    /// The accounts of the callback: it writes the balance and the two token
    /// accounts, and reads the vault, the mint and the token program.
    pub open spec fn callback_accounts(self) -> Seq<CallbackAccount> {
        seq![
            CallbackAccount { pubkey: self.encrypted_token_account.key, is_writable: true },
            CallbackAccount { pubkey: self.user_token_account, is_writable: true },
            CallbackAccount { pubkey: self.token_vault.key, is_writable: false },
            CallbackAccount { pubkey: self.token_vault_ata, is_writable: true },
            CallbackAccount { pubkey: self.token_mint, is_writable: false },
            CallbackAccount { pubkey: self.token_program, is_writable: false },
        ]
    }
}

/// Queues a withdrawal of `amount` tokens from the signer's encrypted
/// balance.
///
/// Accepted when the balance is the signer's, in the given mint and not
/// locked; it is then locked. Whether the balance covers the amount is for
/// the circuit to say. A rejected withdrawal changes nothing.
pub fn unwrap_encrypted_tokens(
    ctx: &mut UnwrapEncryptedTokens,
    computation_offset: u64,
    amount: u64,
) -> (result: Result<ComputationRequest, ErrorCode>)
    ensures
        match result {
            Ok(request) => {
                &&& old(ctx).rejection() is None
                &&& *final(ctx) == old(ctx).submitted()
                &&& request.describes(
                    "unwrap_encrypted_tokens"@,
                    computation_offset,
                    old(ctx).arguments(amount),
                    old(ctx).callback_accounts(),
                )
            },
            Err(e) => old(ctx).rejection() == Some(e) && *final(ctx) == *old(ctx),
        },
{
    if ctx.encrypted_token_account.data.owner != ctx.signer {
        return Err(ErrorCode::Unauthorized);
    }
    if ctx.encrypted_token_account.data.token_mint != ctx.token_mint {
        return Err(ErrorCode::InvalidMint);
    }
    if ctx.encrypted_token_account.data.locked {
        return Err(ErrorCode::Locked);
    }
    let user_pubkey = ctx.encrypted_token_account.data.user_pubkey;
    let eta_pubkey = ctx.encrypted_token_account.key;

    let builder = new_builder();
    let builder = x25519_pubkey(builder, user_pubkey);
    let builder = plaintext_u128(builder, ctx.encrypted_token_account.data.state_nonce);
    let builder = account(builder, eta_pubkey, 8, 32 * 1);
    let builder = plaintext_u64(builder, amount);
    assert(builder_arguments(builder) =~= old(ctx).arguments(amount));
    let args = build(builder);

    ctx.encrypted_token_account.data.locked = true;

    let mut callback_accounts: Vec<CallbackAccount> = Vec::new();
    callback_accounts.push(writable(eta_pubkey));
    callback_accounts.push(writable(ctx.user_token_account));
    callback_accounts.push(read_only(ctx.token_vault.key));
    callback_accounts.push(writable(ctx.token_vault_ata));
    callback_accounts.push(read_only(ctx.token_mint));
    callback_accounts.push(read_only(ctx.token_program));
    assert(callback_accounts@ =~= old(ctx).callback_accounts());
    Ok(queue_computation("unwrap_encrypted_tokens", computation_offset, args, callback_accounts))
}

impl UnwrapEncryptedTokensCallback {
    /// Why the result is not applied, if it is not.
    pub open spec fn failure(
        output: Result<UnwrapEncryptedTokensOutput, VerificationFailed>,
    ) -> Option<Failure> {
        match output {
            Err(_) => Some(Failure::VerificationFailed),
            Ok(res) => if res.error {
                Some(Failure::Declined)
            } else {
                None
            },
        }
    }

    /// The accounts after the callback. The balance is unlocked whatever the
    /// result, and replaced by an applied one.
    pub open spec fn settled(
        self,
        output: Result<UnwrapEncryptedTokensOutput, VerificationFailed>,
    ) -> UnwrapEncryptedTokensCallback {
        let eta = EncryptedTokenAccount { locked: false, ..self.encrypted_token_account.data };
        UnwrapEncryptedTokensCallback {
            encrypted_token_account: Account {
                data: if Self::failure(output) is Some {
                    eta
                } else {
                    EncryptedTokenAccount {
                        state_nonce: output->Ok_0.new_balance.nonce,
                        encrypted_state: output->Ok_0.new_balance.ciphertexts,
                        ..eta
                    }
                },
                ..self.encrypted_token_account
            },
            ..self
        }
    }

    /// The payment that an applied withdrawal of `amount_sold` calls for:
    /// none for zero tokens, else that many from the vault's token account to
    /// the user's, on the vault's authority.
    pub open spec fn payment(self, amount_sold: u64) -> Option<TokenTransfer> {
        if amount_sold > 0 {
            Some(
                TokenTransfer {
                    from: self.token_vault_ata,
                    to: self.user_token_account,
                    authority: self.token_vault.key,
                    amount: amount_sold,
                },
            )
        } else {
            None
        }
    }

    /// What the callback reports and leaves to do.
    pub open spec fn outcome(
        self,
        unix_timestamp: i64,
        output: Result<UnwrapEncryptedTokensOutput, VerificationFailed>,
    ) -> CallbackOutcome<Unwrapped, EncryptedTokensUnwrappedError> {
        let user = self.encrypted_token_account.data.owner;
        match Self::failure(output) {
            Some(failure) => CallbackOutcome::RolledBack(
                failure,
                EncryptedTokensUnwrappedError { user, timestamp: unix_timestamp },
            ),
            None => {
                let res = output->Ok_0;
                CallbackOutcome::Applied(
                    Unwrapped {
                        transfer: self.payment(res.amount_sold),
                        event: EncryptedTokensUnwrappedEvent {
                            user,
                            encrypted_token_account: self.encrypted_token_account.key,
                            amount_withdrawn: res.amount_sold,
                            encrypted_new_balance: res.new_balance.ciphertexts[0],
                            nonce: res.new_balance.nonce,
                            timestamp: unix_timestamp,
                        },
                    },
                )
            },
        }
    }
}

/// Settles a withdrawal.
///
/// The balance is unlocked before the result is looked at. A result that did
/// not verify, or one whose error flag is set, is reported as a failure, pays
/// nothing and leaves the balance as it was; the transaction still succeeds.
/// Otherwise the new balance is written and the tokens sold, if any, are to
/// be paid out of the vault.
pub fn unwrap_encrypted_tokens_callback(
    ctx: &mut UnwrapEncryptedTokensCallback,
    unix_timestamp: i64,
    output: Result<UnwrapEncryptedTokensOutput, VerificationFailed>,
) -> (outcome: CallbackOutcome<Unwrapped, EncryptedTokensUnwrappedError>)
    ensures
        *final(ctx) == old(ctx).settled(output),
        outcome == old(ctx).outcome(unix_timestamp, output),
{
    ctx.encrypted_token_account.data.locked = false;
    let user = ctx.encrypted_token_account.data.owner;

    let res = match output {
        Ok(res) => res,
        Err(_) => {
            return CallbackOutcome::RolledBack(
                Failure::VerificationFailed,
                EncryptedTokensUnwrappedError { user, timestamp: unix_timestamp },
            );
        },
    };
    if res.error {
        return CallbackOutcome::RolledBack(
            Failure::Declined,
            EncryptedTokensUnwrappedError { user, timestamp: unix_timestamp },
        );
    }
    let amount_sold = res.amount_sold;
    let encrypted_balance = res.new_balance;

    let transfer = if amount_sold > 0 {
        Some(
            TokenTransfer {
                from: ctx.token_vault_ata,
                to: ctx.user_token_account,
                authority: ctx.token_vault.key,
                amount: amount_sold,
            },
        )
    } else {
        None
    };
    ctx.encrypted_token_account.data.state_nonce = encrypted_balance.nonce;
    ctx.encrypted_token_account.data.encrypted_state = encrypted_balance.ciphertexts;

    CallbackOutcome::Applied(
        Unwrapped {
            transfer,
            event: EncryptedTokensUnwrappedEvent {
                user,
                encrypted_token_account: ctx.encrypted_token_account.key,
                amount_withdrawn: amount_sold,
                encrypted_new_balance: encrypted_balance.ciphertexts[0],
                nonce: encrypted_balance.nonce,
                timestamp: unix_timestamp,
            },
        },
    )
}

} // verus!
