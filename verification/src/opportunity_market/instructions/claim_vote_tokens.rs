//! Selling vote tokens back for tokens: queued by [`claim_vote_tokens`],
//! settled by [`claim_vote_tokens_callback`].

use vstd::prelude::*;
use crate::arguments::{
    account, build, builder_arguments, new_builder, plaintext_u128, plaintext_u64, x25519_pubkey,
    Argument,
};
use crate::computation::{
    queue_computation, read_only, writable, Account, CallbackAccount, CallbackFailedEvent,
    CallbackOutcome, ComputationRequest, EncryptedOutput, Failure, TokenTransfer,
    VerificationFailed,
};
use crate::opportunity_market::error::ErrorCode;
use crate::opportunity_market::state::VoteTokenAccount;
use crate::pubkey::Pubkey;

verus! {

/// The accounts of [`claim_vote_tokens`].
#[derive(Debug)]
pub struct ClaimVoteTokens {
    pub signer: Pubkey,
    pub token_mint: Pubkey,
    pub vote_token_account: Account<VoteTokenAccount>,
    /// The vote token account's own token account, from which claims are
    /// paid.
    pub vote_token_ata: Pubkey,
    /// The signer's token account, to which the claim is paid.
    pub user_token_account: Pubkey,
    pub token_program: Pubkey,
}

/// The accounts of [`claim_vote_tokens_callback`].
#[derive(Debug)]
pub struct ClaimVoteTokensCallback {
    pub vote_token_account: Account<VoteTokenAccount>,
    pub user_token_account: Pubkey,
    pub vote_token_ata: Pubkey,
    pub token_mint: Pubkey,
}

/// What the circuit that sells vote tokens returns.
#[derive(Clone, Copy, Debug, PartialEq, Eq)]
pub struct ClaimVoteTokensOutput {
    /// The balance did not cover the sale.
    pub error: bool,
    /// The tokens to pay out.
    pub amount_sold: u64,
    pub new_balance: EncryptedOutput<1>,
}

impl ClaimVoteTokens {
    /// Why the claim is rejected, if it is: the account is locked.
    pub open spec fn rejection(self) -> Option<ErrorCode> {
        if self.vote_token_account.data.locked {
            Some(ErrorCode::Locked)
        } else {
            None
        }
    }

    /// The accounts after an accepted claim: the account is locked.
    pub open spec fn submitted(self) -> ClaimVoteTokens {
        ClaimVoteTokens {
            vote_token_account: Account {
                data: VoteTokenAccount { locked: true, ..self.vote_token_account.data },
                ..self.vote_token_account
            },
            ..self
        }
    }

    /// The arguments of the sale: the balance as stored, and the amount.
    pub open spec fn arguments(self, user_pubkey: [u8; 32], amount: u64) -> Seq<Argument> {
        let vta = self.vote_token_account;
        seq![
            Argument::X25519Pubkey(user_pubkey@),
            Argument::PlaintextU128(vta.data.state_nonce),
            Argument::Account { pubkey: vta.key.bytes@, offset: 8, length: 32 },
            Argument::PlaintextU64(amount),
        ]
    }

    /// The accounts of the callback: it writes the vote token account and the
    /// two token accounts, and reads the mint and the token program.
    pub open spec fn callback_accounts(self) -> Seq<CallbackAccount> {
        seq![
            CallbackAccount { pubkey: self.vote_token_account.key, is_writable: true },
            CallbackAccount { pubkey: self.user_token_account, is_writable: true },
            CallbackAccount { pubkey: self.vote_token_ata, is_writable: true },
            CallbackAccount { pubkey: self.token_mint, is_writable: false },
            CallbackAccount { pubkey: self.token_program, is_writable: false },
        ]
    }
}

/// Queues the sale of `amount` vote tokens.
///
/// Accepted when the account is not locked; it is then locked. Whether the
/// balance covers the amount is for the circuit to say. A rejected claim
/// changes nothing.
pub fn claim_vote_tokens(
    ctx: &mut ClaimVoteTokens,
    computation_offset: u64,
    user_pubkey: [u8; 32],
    amount: u64,
) -> (result: Result<ComputationRequest, ErrorCode>)
    ensures
        match result {
            Ok(request) => {
                &&& old(ctx).rejection() is None
                &&& *final(ctx) == old(ctx).submitted()
                &&& request.describes(
                    "claim_vote_tokens"@,
                    computation_offset,
                    old(ctx).arguments(user_pubkey, amount),
                    old(ctx).callback_accounts(),
                )
            },
            Err(e) => old(ctx).rejection() == Some(e) && *final(ctx) == *old(ctx),
        },
{
    if ctx.vote_token_account.data.locked {
        return Err(ErrorCode::Locked);
    }
    let vta_pubkey = ctx.vote_token_account.key;

    let builder = new_builder();
    let builder = x25519_pubkey(builder, user_pubkey);
    let builder = plaintext_u128(builder, ctx.vote_token_account.data.state_nonce);
    let builder = account(builder, vta_pubkey, 8, 32 * 1);
    let builder = plaintext_u64(builder, amount);
    assert(builder_arguments(builder) =~= old(ctx).arguments(user_pubkey, amount));
    let args = build(builder);

    ctx.vote_token_account.data.locked = true;

    let mut callback_accounts: Vec<CallbackAccount> = Vec::new();
    callback_accounts.push(writable(vta_pubkey));
    callback_accounts.push(writable(ctx.user_token_account));
    callback_accounts.push(writable(ctx.vote_token_ata));
    callback_accounts.push(read_only(ctx.token_mint));
    callback_accounts.push(read_only(ctx.token_program));
    assert(callback_accounts@ =~= old(ctx).callback_accounts());
    Ok(queue_computation("claim_vote_tokens", computation_offset, args, callback_accounts))
}

impl ClaimVoteTokensCallback {
    /// Why the result is not applied, if it is not.
    pub open spec fn failure(output: Result<ClaimVoteTokensOutput, VerificationFailed>) -> Option<
        Failure,
    > {
        match output {
            Err(_) => Some(Failure::VerificationFailed),
            Ok(res) => if res.error {
                Some(Failure::Declined)
            } else {
                None
            },
        }
    }

    /// The accounts after the callback. The account is unlocked whatever the
    /// result, and its balance replaced by an applied one.
    pub open spec fn settled(
        self,
        output: Result<ClaimVoteTokensOutput, VerificationFailed>,
    ) -> ClaimVoteTokensCallback {
        let vta = VoteTokenAccount { locked: false, ..self.vote_token_account.data };
        ClaimVoteTokensCallback {
            vote_token_account: Account {
                data: if Self::failure(output) is Some {
                    vta
                } else {
                    VoteTokenAccount {
                        state_nonce: output->Ok_0.new_balance.nonce,
                        encrypted_state: output->Ok_0.new_balance.ciphertexts,
                        ..vta
                    }
                },
                ..self.vote_token_account
            },
            ..self
        }
    }

    /// The payment that an applied sale of `amount_sold` calls for: none for
    /// zero tokens, else that many from the account's token account to the
    /// user's, on the account's own authority.
    pub open spec fn payment(self, amount_sold: u64) -> Option<TokenTransfer> {
        if amount_sold > 0 {
            Some(
                TokenTransfer {
                    from: self.vote_token_ata,
                    to: self.user_token_account,
                    authority: self.vote_token_account.key,
                    amount: amount_sold,
                },
            )
        } else {
            None
        }
    }

    /// What the callback reports and leaves to do.
    pub open spec fn outcome(
        self,
        unix_timestamp: i64,
        output: Result<ClaimVoteTokensOutput, VerificationFailed>,
    ) -> CallbackOutcome<Option<TokenTransfer>, CallbackFailedEvent> {
        match Self::failure(output) {
            Some(failure) => CallbackOutcome::RolledBack(
                failure,
                CallbackFailedEvent {
                    account: self.vote_token_account.key,
                    timestamp: unix_timestamp,
                },
            ),
            None => CallbackOutcome::Applied(self.payment(output->Ok_0.amount_sold)),
        }
    }
}

/// Settles a sale of vote tokens.
///
/// The account is unlocked before the result is looked at. A result that did
/// not verify, or one whose error flag is set, is reported as a failure, pays
/// nothing and leaves the balance as it was; the transaction still succeeds.
/// Otherwise the new balance is written and the tokens sold, if any, are to
/// be paid out.
pub fn claim_vote_tokens_callback(
    ctx: &mut ClaimVoteTokensCallback,
    unix_timestamp: i64,
    output: Result<ClaimVoteTokensOutput, VerificationFailed>,
) -> (outcome: CallbackOutcome<Option<TokenTransfer>, CallbackFailedEvent>)
    ensures
        *final(ctx) == old(ctx).settled(output),
        outcome == old(ctx).outcome(unix_timestamp, output),
{
    ctx.vote_token_account.data.locked = false;
    let account = ctx.vote_token_account.key;
    let res = match output {
        Ok(res) => res,
        Err(_) => {
            return CallbackOutcome::RolledBack(
                Failure::VerificationFailed,
                CallbackFailedEvent { account, timestamp: unix_timestamp },
            );
        },
    };
    if res.error {
        return CallbackOutcome::RolledBack(
            Failure::Declined,
            CallbackFailedEvent { account, timestamp: unix_timestamp },
        );
    }
    let amount_sold = res.amount_sold;
    let encrypted_balance = res.new_balance;
    let transfer = if amount_sold > 0 {
        Some(
            TokenTransfer {
                from: ctx.vote_token_ata,
                to: ctx.user_token_account,
                authority: ctx.vote_token_account.key,
                amount: amount_sold,
            },
        )
    } else {
        None
    };
    ctx.vote_token_account.data.state_nonce = encrypted_balance.nonce;
    ctx.vote_token_account.data.encrypted_state = encrypted_balance.ciphertexts;
    CallbackOutcome::Applied(transfer)
}

} // verus!
