//! Buying vote tokens with deposited tokens: queued by [`mint_vote_tokens`],
//! settled by [`buy_vote_tokens_callback`].

use vstd::prelude::*;
use crate::arguments::{
    account, build, builder_arguments, new_builder, plaintext_u128, plaintext_u64, x25519_pubkey,
    Argument,
};
use crate::computation::{
    queue_computation, writable, Account, CallbackAccount, CallbackFailedEvent, CallbackOutcome,
    ComputationRequest, EncryptedOutput, Failure, TokenTransfer, VerificationFailed,
};
use crate::opportunity_market::error::ErrorCode;
use crate::opportunity_market::state::VoteTokenAccount;
use crate::pubkey::Pubkey;

verus! {

/// The accounts of [`mint_vote_tokens`].
#[derive(Debug)]
pub struct MintVoteTokens {
    pub signer: Pubkey,
    pub token_mint: Pubkey,
    pub vote_token_account: Account<VoteTokenAccount>,
    /// The signer's token account, from which the deposit is taken.
    pub signer_token_account: Pubkey,
    /// The vote token account's own token account, which receives it.
    pub vote_token_ata: Pubkey,
}

/// The accounts of [`buy_vote_tokens_callback`].
#[derive(Debug)]
pub struct BuyVoteTokensCallback {
    pub vote_token_account: Account<VoteTokenAccount>,
}

/// What the circuit that buys vote tokens returns.
#[derive(Clone, Copy, Debug, PartialEq, Eq)]
pub struct BuyVoteTokensOutput {
    pub amount_bought: u64,
    pub new_balance: EncryptedOutput<1>,
}

/// What an accepted purchase leaves to do: move the tokens, then queue the
/// computation.
#[derive(Debug)]
pub struct MintSubmission {
    pub transfer: TokenTransfer,
    pub request: ComputationRequest,
}

impl MintVoteTokens {
    /// Why the purchase is rejected, if it is: the account is locked, or the
    /// pending deposit has no room for the amount.
    pub open spec fn rejection(self, amount: u64) -> Option<ErrorCode> {
        let vta = self.vote_token_account.data;
        if vta.locked {
            Some(ErrorCode::Locked)
        } else if vta.pending_deposit + amount > u64::MAX {
            Some(ErrorCode::Overflow)
        } else {
            None
        }
    }

    /// The accounts after an accepted purchase: the amount is pending and
    /// the account is locked.
    pub open spec fn submitted(self, amount: u64) -> MintVoteTokens {
        let vta = self.vote_token_account;
        MintVoteTokens {
            vote_token_account: Account {
                data: VoteTokenAccount {
                    pending_deposit: (vta.data.pending_deposit + amount) as u64,
                    locked: true,
                    ..vta.data
                },
                ..vta
            },
            ..self
        }
    }

    /// The move of the deposit into the account's token account.
    pub open spec fn deposit(self, amount: u64) -> TokenTransfer {
        TokenTransfer {
            from: self.signer_token_account,
            to: self.vote_token_ata,
            authority: self.signer,
            amount,
        }
    }

    /// The arguments of the purchase: the balance as stored, and the amount.
    pub open spec fn arguments(self, user_pubkey: [u8; 32], amount: u64) -> Seq<Argument> {
        let vta = self.vote_token_account;
        seq![
            Argument::X25519Pubkey(user_pubkey@),
            Argument::PlaintextU128(vta.data.state_nonce),
            Argument::Account { pubkey: vta.key.bytes@, offset: 8, length: 32 },
            Argument::PlaintextU64(amount),
        ]
    }

    /// The one account the callback may write: the vote token account.
    pub open spec fn callback_accounts(self) -> Seq<CallbackAccount> {
        seq![CallbackAccount { pubkey: self.vote_token_account.key, is_writable: true }]
    }
}

/// Queues the purchase of `amount` vote tokens.
///
/// Accepted when the account is not locked and its pending deposit has room
/// for the amount. The amount is then pending, the account is locked, and
/// the tokens are to be moved in. A rejected purchase changes nothing.
pub fn mint_vote_tokens(
    ctx: &mut MintVoteTokens,
    user_pubkey: [u8; 32],
    computation_offset: u64,
    amount: u64,
) -> (result: Result<MintSubmission, ErrorCode>)
    ensures
        match result {
            Ok(submission) => {
                &&& old(ctx).rejection(amount) is None
                &&& *final(ctx) == old(ctx).submitted(amount)
                &&& submission.transfer == old(ctx).deposit(amount)
                &&& submission.request.describes(
                    "buy_vote_tokens"@,
                    computation_offset,
                    old(ctx).arguments(user_pubkey, amount),
                    old(ctx).callback_accounts(),
                )
            },
            Err(e) => old(ctx).rejection(amount) == Some(e) && *final(ctx) == *old(ctx),
        },
{
    if ctx.vote_token_account.data.locked {
        return Err(ErrorCode::Locked);
    }
    let vta_pubkey = ctx.vote_token_account.key;
    let transfer = TokenTransfer {
        from: ctx.signer_token_account,
        to: ctx.vote_token_ata,
        authority: ctx.signer,
        amount,
    };
    let pending_deposit = match ctx.vote_token_account.data.pending_deposit.checked_add(amount) {
        Some(sum) => sum,
        None => return Err(ErrorCode::Overflow),
    };
    ctx.vote_token_account.data.pending_deposit = pending_deposit;
    ctx.vote_token_account.data.locked = true;

    let builder = new_builder();
    let builder = x25519_pubkey(builder, user_pubkey);
    let builder = plaintext_u128(builder, ctx.vote_token_account.data.state_nonce);
    let builder = account(builder, vta_pubkey, 8, 32 * 1);
    let builder = plaintext_u64(builder, amount);
    assert(builder_arguments(builder) =~= old(ctx).arguments(user_pubkey, amount));
    let args = build(builder);

    let mut callback_accounts: Vec<CallbackAccount> = Vec::new();
    callback_accounts.push(writable(vta_pubkey));
    assert(callback_accounts@ =~= old(ctx).callback_accounts());
    Ok(
        MintSubmission {
            transfer,
            request: queue_computation(
                "buy_vote_tokens",
                computation_offset,
                args,
                callback_accounts,
            ),
        },
    )
}

impl BuyVoteTokensCallback {
    /// Why the result is not applied, if it is not: it did not verify, or it
    /// credits more than is pending.
    pub open spec fn failure(
        self,
        output: Result<BuyVoteTokensOutput, VerificationFailed>,
    ) -> Option<Failure> {
        match output {
            Err(_) => Some(Failure::VerificationFailed),
            Ok(res) => if res.amount_bought <= self.vote_token_account.data.pending_deposit {
                None
            } else {
                Some(Failure::Declined)
            },
        }
    }

    /// The accounts after the callback. The account is unlocked whatever the
    /// result. An applied result takes the amount bought off the pending
    /// deposit and replaces the balance.
    pub open spec fn settled(
        self,
        output: Result<BuyVoteTokensOutput, VerificationFailed>,
    ) -> BuyVoteTokensCallback {
        let vta = VoteTokenAccount { locked: false, ..self.vote_token_account.data };
        BuyVoteTokensCallback {
            vote_token_account: Account {
                data: if self.failure(output) is Some {
                    vta
                } else {
                    VoteTokenAccount {
                        pending_deposit: (vta.pending_deposit - output->Ok_0.amount_bought) as u64,
                        state_nonce: output->Ok_0.new_balance.nonce,
                        encrypted_state: output->Ok_0.new_balance.ciphertexts,
                        ..vta
                    }
                },
                ..self.vote_token_account
            },
        }
    }

    /// What the callback reports: the amount bought, or the failure.
    pub open spec fn outcome(
        self,
        unix_timestamp: i64,
        output: Result<BuyVoteTokensOutput, VerificationFailed>,
    ) -> CallbackOutcome<u64, CallbackFailedEvent> {
        match self.failure(output) {
            Some(failure) => CallbackOutcome::RolledBack(
                failure,
                CallbackFailedEvent {
                    account: self.vote_token_account.key,
                    timestamp: unix_timestamp,
                },
            ),
            None => CallbackOutcome::Applied(output->Ok_0.amount_bought),
        }
    }
}

/// Settles a purchase of vote tokens.
///
/// The account is unlocked before the result is looked at. A result that did
/// not verify, or one that credits more than is pending, is reported as a
/// failure and leaves the balance and the pending deposit as they are; the
/// transaction still succeeds. Otherwise the amount bought leaves the
/// pending deposit and the new balance is written.
pub fn buy_vote_tokens_callback(
    ctx: &mut BuyVoteTokensCallback,
    unix_timestamp: i64,
    output: Result<BuyVoteTokensOutput, VerificationFailed>,
) -> (outcome: CallbackOutcome<u64, CallbackFailedEvent>)
    ensures
        *final(ctx) == old(ctx).settled(output),
        outcome == old(ctx).outcome(unix_timestamp, output),
{
    ctx.vote_token_account.data.locked = false;
    let account = ctx.vote_token_account.key;
    let res = match output {
        Ok(res) => res,
        Err(_) => {
            return CallbackOutcome::RolledBack(
                Failure::VerificationFailed,
                CallbackFailedEvent { account, timestamp: unix_timestamp },
            );
        },
    };
    let amount_bought = res.amount_bought;
    let encrypted_balance = res.new_balance;
    if amount_bought > ctx.vote_token_account.data.pending_deposit {
        return CallbackOutcome::RolledBack(
            Failure::Declined,
            CallbackFailedEvent { account, timestamp: unix_timestamp },
        );
    }
    ctx.vote_token_account.data.pending_deposit = ctx.vote_token_account.data.pending_deposit
        - amount_bought;
    ctx.vote_token_account.data.state_nonce = encrypted_balance.nonce;
    ctx.vote_token_account.data.encrypted_state = encrypted_balance.ciphertexts;
    CallbackOutcome::Applied(amount_bought)
}

} // verus!
