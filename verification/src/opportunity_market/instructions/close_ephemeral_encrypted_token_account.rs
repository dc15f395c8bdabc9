//! Folding an ephemeral encrypted balance into its owner's regular one and
//! closing it: queued by [`close_ephemeral_encrypted_token_account`], settled
//! by [`close_ephemeral_encrypted_token_account_callback`].

use vstd::prelude::*;
use crate::arguments::{
    account, build, builder_arguments, new_builder, plaintext_bool, plaintext_u128, x25519_pubkey,
    Argument,
};
use crate::computation::{
    queue_computation, writable, Account, CallbackAccount, CallbackOutcome, ComputationRequest,
    EncryptedOutput, Failure, VerificationFailed,
};
use crate::opportunity_market::error::ErrorCode;
use crate::opportunity_market::events::{EphemeralAccountClosedError, EphemeralAccountClosedEvent};
use crate::opportunity_market::state::EncryptedTokenAccount;
use crate::pubkey::{is_some_key, Pubkey};

verus! {

/// The accounts of [`close_ephemeral_encrypted_token_account`].
#[derive(Debug)]
pub struct CloseEphemeralEncryptedTokenAccount {
    pub signer: Pubkey,
    pub token_mint: Pubkey,
    pub regular_encrypted_token_account: Account<EncryptedTokenAccount>,
    pub ephemeral_encrypted_token_account: Account<EncryptedTokenAccount>,
    /// Who gets the rent of the ephemeral account back.
    pub rent_recipient: Pubkey,
}

/// The accounts of [`close_ephemeral_encrypted_token_account_callback`],
/// with the lamports that the closing moves.
#[derive(Debug)]
pub struct CloseEphemeralEncryptedTokenAccountCallback {
    pub regular_encrypted_token_account: Account<EncryptedTokenAccount>,
    pub ephemeral_encrypted_token_account: Account<EncryptedTokenAccount>,
    pub ephemeral_lamports: u64,
    pub rent_recipient: Pubkey,
    pub rent_recipient_lamports: u64,
}

impl CloseEphemeralEncryptedTokenAccount {
    /// Why the closing is rejected, if it is. The first check that fails
    /// decides.
    pub open spec fn rejection(self) -> Option<ErrorCode> {
        let regular = self.regular_encrypted_token_account.data;
        let ephemeral = self.ephemeral_encrypted_token_account.data;
        if regular.owner != self.signer {
            Some(ErrorCode::Unauthorized)
        } else if regular.token_mint != self.token_mint {
            Some(ErrorCode::InvalidMint)
        } else if regular.locked {
            Some(ErrorCode::Locked)
        } else if ephemeral.owner != self.signer {
            Some(ErrorCode::Unauthorized)
        } else if ephemeral.token_mint != self.token_mint {
            Some(ErrorCode::InvalidMint)
        } else if ephemeral.index == 0 {
            Some(ErrorCode::InvalidAccountState)
        } else if ephemeral.locked {
            Some(ErrorCode::Locked)
        } else if ephemeral.rent_payer != Some(self.rent_recipient) {
            Some(ErrorCode::Unauthorized)
        } else {
            None
        }
    }

    /// The accounts after an accepted closing: both balances are locked.
    pub open spec fn submitted(self) -> CloseEphemeralEncryptedTokenAccount {
        let regular = self.regular_encrypted_token_account;
        let ephemeral = self.ephemeral_encrypted_token_account;
        CloseEphemeralEncryptedTokenAccount {
            regular_encrypted_token_account: Account {
                data: EncryptedTokenAccount { locked: true, ..regular.data },
                ..regular
            },
            ephemeral_encrypted_token_account: Account {
                data: EncryptedTokenAccount { locked: true, ..ephemeral.data },
                ..ephemeral
            },
            ..self
        }
    }

    /// The arguments of the fold: the ephemeral balance and the regular one
    /// as stored, and whether the regular one has been written before, which
    /// is told by its nonce.
    pub open spec fn arguments(self) -> Seq<Argument> {
        let regular = self.regular_encrypted_token_account;
        let ephemeral = self.ephemeral_encrypted_token_account;
        let user_pubkey = ephemeral.data.user_pubkey@;
        seq![
            Argument::X25519Pubkey(user_pubkey),
            Argument::PlaintextU128(ephemeral.data.state_nonce),
            Argument::Account { pubkey: ephemeral.key.bytes@, offset: 8, length: 32 },
            Argument::X25519Pubkey(user_pubkey),
            Argument::PlaintextU128(regular.data.state_nonce),
            Argument::Account { pubkey: regular.key.bytes@, offset: 8, length: 32 },
            Argument::PlaintextBool(regular.data.state_nonce != 0),
        ]
    }

    /// The accounts the callback may write: the regular balance, the
    /// ephemeral one, and the recipient of the rent.
    pub open spec fn callback_accounts(self) -> Seq<CallbackAccount> {
        seq![
            CallbackAccount { pubkey: self.regular_encrypted_token_account.key, is_writable: true },
            CallbackAccount {
                pubkey: self.ephemeral_encrypted_token_account.key,
                is_writable: true,
            },
            CallbackAccount { pubkey: self.rent_recipient, is_writable: true },
        ]
    }
}

/// Queues the fold of an ephemeral balance into the signer's regular one.
///
/// Accepted when both balances are the signer's, in the given mint and not
/// locked, the ephemeral one really is ephemeral, and the rent goes back to
/// who paid it. Both balances are then locked. A rejected closing changes
/// nothing.
pub fn close_ephemeral_encrypted_token_account(
    ctx: &mut CloseEphemeralEncryptedTokenAccount,
    computation_offset: u64,
    _index: u64,
) -> (result: Result<ComputationRequest, ErrorCode>)
    ensures
        match result {
            Ok(request) => {
                &&& old(ctx).rejection() is None
                &&& *final(ctx) == old(ctx).submitted()
                &&& request.describes(
                    "close_ephemeral_encrypted_token_account"@,
                    computation_offset,
                    old(ctx).arguments(),
                    old(ctx).callback_accounts(),
                )
            },
            Err(e) => old(ctx).rejection() == Some(e) && *final(ctx) == *old(ctx),
        },
{
    if ctx.regular_encrypted_token_account.data.owner != ctx.signer {
        return Err(ErrorCode::Unauthorized);
    }
    if ctx.regular_encrypted_token_account.data.token_mint != ctx.token_mint {
        return Err(ErrorCode::InvalidMint);
    }
    if ctx.regular_encrypted_token_account.data.locked {
        return Err(ErrorCode::Locked);
    }
    if ctx.ephemeral_encrypted_token_account.data.owner != ctx.signer {
        return Err(ErrorCode::Unauthorized);
    }
    if ctx.ephemeral_encrypted_token_account.data.token_mint != ctx.token_mint {
        return Err(ErrorCode::InvalidMint);
    }
    if ctx.ephemeral_encrypted_token_account.data.index == 0 {
        return Err(ErrorCode::InvalidAccountState);
    }
    if ctx.ephemeral_encrypted_token_account.data.locked {
        return Err(ErrorCode::Locked);
    }
    if !is_some_key(&ctx.ephemeral_encrypted_token_account.data.rent_payer, &ctx.rent_recipient) {
        return Err(ErrorCode::Unauthorized);
    }
    let user_pubkey = ctx.ephemeral_encrypted_token_account.data.user_pubkey;
    let ephemeral_eta_key = ctx.ephemeral_encrypted_token_account.key;
    let ephemeral_eta_nonce = ctx.ephemeral_encrypted_token_account.data.state_nonce;
    let regular_eta_key = ctx.regular_encrypted_token_account.key;
    let regular_eta_nonce = ctx.regular_encrypted_token_account.data.state_nonce;

    ctx.ephemeral_encrypted_token_account.data.locked = true;
    ctx.regular_encrypted_token_account.data.locked = true;

    let is_regular_eta_initialized = regular_eta_nonce != 0;
    let builder = new_builder();
    let builder = x25519_pubkey(builder, user_pubkey);
    let builder = plaintext_u128(builder, ephemeral_eta_nonce);
    let builder = account(builder, ephemeral_eta_key, 8, 32 * 1);
    let builder = x25519_pubkey(builder, user_pubkey);
    let builder = plaintext_u128(builder, regular_eta_nonce);
    let builder = account(builder, regular_eta_key, 8, 32 * 1);
    let builder = plaintext_bool(builder, is_regular_eta_initialized);
    assert(builder_arguments(builder) =~= old(ctx).arguments());
    let args = build(builder);

    let mut callback_accounts: Vec<CallbackAccount> = Vec::new();
    callback_accounts.push(writable(regular_eta_key));
    callback_accounts.push(writable(ephemeral_eta_key));
    callback_accounts.push(writable(ctx.rent_recipient));
    assert(callback_accounts@ =~= old(ctx).callback_accounts());
    Ok(
        queue_computation(
            "close_ephemeral_encrypted_token_account",
            computation_offset,
            args,
            callback_accounts,
        ),
    )
}

impl CloseEphemeralEncryptedTokenAccountCallback {
    /// Why the result is not applied, if it is not: the circuit cannot
    /// decline, so only a result that does not verify.
    pub open spec fn failure(output: Result<EncryptedOutput<1>, VerificationFailed>) -> Option<
        Failure,
    > {
        match output {
            Err(_) => Some(Failure::VerificationFailed),
            Ok(_) => None,
        }
    }

    /// Whether the callback is rejected as a whole: only when the result
    /// verifies and the rent does not fit on top of what the recipient holds.
    pub open spec fn overflows(
        self,
        output: Result<EncryptedOutput<1>, VerificationFailed>,
    ) -> bool {
        output is Ok && self.rent_recipient_lamports + self.ephemeral_lamports > u64::MAX
    }

    /// The accounts after a callback that is not rejected. Both balances are
    /// unlocked whatever the result. An applied result replaces the regular
    /// balance and moves every lamport of the ephemeral account to the
    /// recipient of the rent, which closes the account.
    pub open spec fn settled(
        self,
        output: Result<EncryptedOutput<1>, VerificationFailed>,
    ) -> CloseEphemeralEncryptedTokenAccountCallback {
        let regular = EncryptedTokenAccount {
            locked: false,
            ..self.regular_encrypted_token_account.data
        };
        let ephemeral = Account {
            data: EncryptedTokenAccount {
                locked: false,
                ..self.ephemeral_encrypted_token_account.data
            },
            ..self.ephemeral_encrypted_token_account
        };
        match output {
            Err(_) => CloseEphemeralEncryptedTokenAccountCallback {
                regular_encrypted_token_account: Account {
                    data: regular,
                    ..self.regular_encrypted_token_account
                },
                ephemeral_encrypted_token_account: ephemeral,
                ..self
            },
            Ok(res) => CloseEphemeralEncryptedTokenAccountCallback {
                regular_encrypted_token_account: Account {
                    data: EncryptedTokenAccount {
                        state_nonce: res.nonce,
                        encrypted_state: res.ciphertexts,
                        ..regular
                    },
                    ..self.regular_encrypted_token_account
                },
                ephemeral_encrypted_token_account: ephemeral,
                ephemeral_lamports: 0,
                rent_recipient_lamports: (self.rent_recipient_lamports
                    + self.ephemeral_lamports) as u64,
                ..self
            },
        }
    }

    /// What a callback that is not rejected reports.
    pub open spec fn outcome(
        self,
        unix_timestamp: i64,
        output: Result<EncryptedOutput<1>, VerificationFailed>,
    ) -> CallbackOutcome<EphemeralAccountClosedEvent, EphemeralAccountClosedError> {
        let user = self.regular_encrypted_token_account.data.owner;
        match output {
            Err(_) => CallbackOutcome::RolledBack(
                Failure::VerificationFailed,
                EphemeralAccountClosedError { user, timestamp: unix_timestamp },
            ),
            Ok(res) => CallbackOutcome::Applied(
                EphemeralAccountClosedEvent {
                    user,
                    encrypted_token_account: self.regular_encrypted_token_account.key,
                    encrypted_new_balance: res.ciphertexts[0],
                    nonce: res.nonce,
                    timestamp: unix_timestamp,
                },
            ),
        }
    }
}

/// Settles the fold of an ephemeral balance.
///
/// Both balances are unlocked before the result is looked at. A result that
/// did not verify is reported as a failure and the transaction still
/// succeeds, with the ephemeral account left open. Otherwise the regular
/// balance is replaced and the ephemeral account is closed: its lamports go
/// to the recipient of the rent. If they do not fit there the callback is
/// rejected and changes nothing.
pub fn close_ephemeral_encrypted_token_account_callback(
    ctx: &mut CloseEphemeralEncryptedTokenAccountCallback,
    unix_timestamp: i64,
    output: Result<EncryptedOutput<1>, VerificationFailed>,
) -> (result: Result<
    CallbackOutcome<EphemeralAccountClosedEvent, EphemeralAccountClosedError>,
    ErrorCode,
>)
    ensures
        match result {
            Ok(outcome) => {
                &&& !old(ctx).overflows(output)
                &&& *final(ctx) == old(ctx).settled(output)
                &&& outcome == old(ctx).outcome(unix_timestamp, output)
            },
            Err(e) => {
                &&& old(ctx).overflows(output)
                &&& e == ErrorCode::Overflow
                &&& *final(ctx) == *old(ctx)
            },
        },
{
    let user = ctx.regular_encrypted_token_account.data.owner;
    let res = match output {
        Ok(res) => res,
        Err(_) => {
            ctx.regular_encrypted_token_account.data.locked = false;
            ctx.ephemeral_encrypted_token_account.data.locked = false;
            return Ok(
                CallbackOutcome::RolledBack(
                    Failure::VerificationFailed,
                    EphemeralAccountClosedError { user, timestamp: unix_timestamp },
                ),
            );
        },
    };
    let rent_recipient_lamports = match ctx.rent_recipient_lamports.checked_add(
        ctx.ephemeral_lamports,
    ) {
        Some(sum) => sum,
        None => return Err(ErrorCode::Overflow),
    };
    ctx.regular_encrypted_token_account.data.locked = false;
    ctx.ephemeral_encrypted_token_account.data.locked = false;

    ctx.regular_encrypted_token_account.data.state_nonce = res.nonce;
    ctx.regular_encrypted_token_account.data.encrypted_state = res.ciphertexts;

    ctx.ephemeral_lamports = 0;
    ctx.rent_recipient_lamports = rent_recipient_lamports;

    Ok(
        CallbackOutcome::Applied(
            EphemeralAccountClosedEvent {
                user,
                encrypted_token_account: ctx.regular_encrypted_token_account.key,
                encrypted_new_balance: res.ciphertexts[0],
                nonce: res.nonce,
                timestamp: unix_timestamp,
            },
        ),
    )
}

} // verus!
