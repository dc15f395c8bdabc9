//! Buying a first balance of vote tokens for lamports: queued by
//! [`purchase_vote_token`], settled by [`init_vote_token_callback`]. The
//! vote token account is born locked and is unlocked by that callback.

use vstd::prelude::*;
use crate::arguments::{
    build, builder_arguments, encrypted_u64, new_builder, plaintext_u128, x25519_pubkey, Argument,
};
use crate::computation::{
    queue_computation, writable, Account, CallbackAccount, CallbackFailedEvent, CallbackOutcome,
    ComputationRequest, EncryptedOutput, Failure, VerificationFailed,
};
use crate::pubkey::Pubkey;
use crate::sealed_bid_auction::error::ErrorCode;
use crate::sealed_bid_auction::state::{VoteToken, VoteTokenVault};

verus! {

/// The bump seeds of the accounts that [`purchase_vote_token`] creates.
#[derive(Clone, Copy, Debug, PartialEq, Eq)]
pub struct PurchaseVoteTokenBumps {
    pub vote_token: u8,
    pub vote_token_vault: u8,
}

/// The accounts of [`purchase_vote_token`]. The vote token account is new;
/// the vault is created with the first purchase.
#[derive(Debug)]
pub struct PurchaseVoteToken {
    pub buyer: Pubkey,
    pub vote_token: Account<VoteToken>,
    pub vote_token_vault: Account<VoteTokenVault>,
    pub bumps: PurchaseVoteTokenBumps,
}

/// The accounts of [`init_vote_token_callback`].
#[derive(Debug)]
pub struct InitVoteTokenCallback {
    pub vote_token: Account<VoteToken>,
}

/// A payment of lamports into the vault that the caller is to carry out.
#[derive(Clone, Copy, Debug, PartialEq, Eq)]
pub struct VaultPayment {
    pub from: Pubkey,
    pub to: Pubkey,
    pub lamports: u64,
}

/// What an accepted purchase leaves to do: pay the vault, then queue the
/// computation.
#[derive(Debug)]
pub struct PurchaseSubmission {
    pub payment: VaultPayment,
    pub request: ComputationRequest,
}

impl PurchaseVoteToken {
    /// The accounts after an accepted purchase: the vault counts the
    /// lamports and, if it had no bump seed yet, takes its own; the vote
    /// token account belongs to the buyer and is locked.
    pub open spec fn purchased(self, lamports_to_spend: u64, nonce: u128) -> PurchaseVoteToken {
        let vault = self.vote_token_vault.data;
        PurchaseVoteToken {
            vote_token_vault: Account {
                data: VoteTokenVault {
                    bump: if vault.bump == 0 {
                        self.bumps.vote_token_vault
                    } else {
                        vault.bump
                    },
                    bought_lamports: (vault.bought_lamports + lamports_to_spend) as u64,
                },
                ..self.vote_token_vault
            },
            vote_token: Account {
                data: VoteToken {
                    bump: self.bumps.vote_token,
                    owner: self.buyer,
                    state_nonce: nonce,
                    locked: true,
                    ..self.vote_token.data
                },
                ..self.vote_token
            },
            ..self
        }
    }

    /// The arguments of the first balance: the buyer's key, the encrypted
    /// amount and the nonce.
    pub open spec fn arguments(
        encrypted_amount: [u8; 32],
        buyer_pubkey: [u8; 32],
        nonce: u128,
    ) -> Seq<Argument> {
        seq![
            Argument::X25519Pubkey(buyer_pubkey@),
            Argument::EncryptedU64(encrypted_amount@),
            Argument::PlaintextU128(nonce),
        ]
    }

    /// The one account the callback may write: the vote token account.
    pub open spec fn callback_accounts(self) -> Seq<CallbackAccount> {
        seq![CallbackAccount { pubkey: self.vote_token.key, is_writable: true }]
    }
}

/// Pays `lamports_to_spend` into the vault and queues the computation of the
/// buyer's first balance.
///
/// Rejected as an overflow when the vault cannot count the lamports on top
/// of what it has; then nothing is changed.
pub fn purchase_vote_token(
    ctx: &mut PurchaseVoteToken,
    computation_offset: u64,
    lamports_to_spend: u64,
    encrypted_amount: [u8; 32],
    buyer_pubkey: [u8; 32],
    nonce: u128,
) -> (result: Result<PurchaseSubmission, ErrorCode>)
    ensures
        match result {
            Ok(submission) => {
                &&& old(ctx).vote_token_vault.data.bought_lamports + lamports_to_spend <= u64::MAX
                &&& *final(ctx) == old(ctx).purchased(lamports_to_spend, nonce)
                &&& submission.payment == (VaultPayment {
                    from: old(ctx).buyer,
                    to: old(ctx).vote_token_vault.key,
                    lamports: lamports_to_spend,
                })
                &&& submission.request.describes(
                    "init_vote_token"@,
                    computation_offset,
                    PurchaseVoteToken::arguments(encrypted_amount, buyer_pubkey, nonce),
                    old(ctx).callback_accounts(),
                )
            },
            Err(e) => {
                &&& old(ctx).vote_token_vault.data.bought_lamports + lamports_to_spend > u64::MAX
                &&& e == ErrorCode::Overflow
                &&& *final(ctx) == *old(ctx)
            },
        },
{
    let payment = VaultPayment {
        from: ctx.buyer,
        to: ctx.vote_token_vault.key,
        lamports: lamports_to_spend,
    };
    let bought_lamports = match ctx.vote_token_vault.data.bought_lamports.checked_add(
        lamports_to_spend,
    ) {
        Some(sum) => sum,
        None => return Err(ErrorCode::Overflow),
    };
    if ctx.vote_token_vault.data.bump == 0 {
        ctx.vote_token_vault.data.bump = ctx.bumps.vote_token_vault;
    }
    ctx.vote_token_vault.data.bought_lamports = bought_lamports;

    ctx.vote_token.data.bump = ctx.bumps.vote_token;
    ctx.vote_token.data.owner = ctx.buyer;
    ctx.vote_token.data.state_nonce = nonce;
    ctx.vote_token.data.locked = true;

    let builder = new_builder();
    let builder = x25519_pubkey(builder, buyer_pubkey);
    let builder = encrypted_u64(builder, encrypted_amount);
    let builder = plaintext_u128(builder, nonce);
    assert(builder_arguments(builder) =~= PurchaseVoteToken::arguments(
        encrypted_amount,
        buyer_pubkey,
        nonce,
    ));
    let args = build(builder);

    let mut callback_accounts: Vec<CallbackAccount> = Vec::new();
    callback_accounts.push(writable(ctx.vote_token.key));
    assert(callback_accounts@ =~= old(ctx).callback_accounts());
    Ok(
        PurchaseSubmission {
            payment,
            request: queue_computation(
                "init_vote_token",
                computation_offset,
                args,
                callback_accounts,
            ),
        },
    )
}

impl InitVoteTokenCallback {
    /// The accounts after the callback. The account is unlocked whatever the
    /// result, and given the balance of an applied one.
    pub open spec fn settled(
        self,
        output: Result<EncryptedOutput<1>, VerificationFailed>,
    ) -> InitVoteTokenCallback {
        let vote_token = VoteToken { locked: false, ..self.vote_token.data };
        InitVoteTokenCallback {
            vote_token: Account {
                data: match output {
                    Err(_) => vote_token,
                    Ok(o) => VoteToken {
                        state_nonce: o.nonce,
                        encrypted_state: o.ciphertexts,
                        ..vote_token
                    },
                },
                ..self.vote_token
            },
        }
    }

    /// What the callback reports.
    pub open spec fn outcome(
        self,
        unix_timestamp: i64,
        output: Result<EncryptedOutput<1>, VerificationFailed>,
    ) -> CallbackOutcome<(), CallbackFailedEvent> {
        match output {
            Err(_) => CallbackOutcome::RolledBack(
                Failure::VerificationFailed,
                CallbackFailedEvent { account: self.vote_token.key, timestamp: unix_timestamp },
            ),
            Ok(_) => CallbackOutcome::Applied(()),
        }
    }
}

/// Settles the purchase of a first balance.
///
/// The account is unlocked before the result is looked at. A result that did
/// not verify is reported as a failure and leaves the account without a
/// balance; the transaction still succeeds. Otherwise the balance is
/// written.
pub fn init_vote_token_callback(
    ctx: &mut InitVoteTokenCallback,
    unix_timestamp: i64,
    output: Result<EncryptedOutput<1>, VerificationFailed>,
) -> (outcome: CallbackOutcome<(), CallbackFailedEvent>)
    ensures
        *final(ctx) == old(ctx).settled(output),
        outcome == old(ctx).outcome(unix_timestamp, output),
{
    ctx.vote_token.data.locked = false;
    let o = match output {
        Ok(o) => o,
        Err(_) => {
            return CallbackOutcome::RolledBack(
                Failure::VerificationFailed,
                CallbackFailedEvent { account: ctx.vote_token.key, timestamp: unix_timestamp },
            );
        },
    };
    ctx.vote_token.data.state_nonce = o.nonce;
    ctx.vote_token.data.encrypted_state = o.ciphertexts;
    CallbackOutcome::Applied(())
}

} // verus!
