//! Creating a vote token account: queued by [`init_vote_token_account`],
//! settled by [`init_vote_token_account_callback`]. The account is born
//! locked and is unlocked by the callback that gives it its first balance.

use vstd::prelude::*;
use crate::arguments::{
    build, builder_arguments, new_builder, plaintext_u128, x25519_pubkey, Argument,
};
use crate::computation::{
    queue_computation, writable, Account, CallbackAccount, CallbackFailedEvent, CallbackOutcome,
    ComputationRequest, EncryptedOutput, Failure, VerificationFailed,
};
use crate::opportunity_market::state::VoteTokenAccount;
use crate::pubkey::Pubkey;

verus! {

/// The accounts of [`init_vote_token_account`]. The vote token account is
/// new.
#[derive(Debug)]
pub struct InitVoteTokenAccount {
    pub signer: Pubkey,
    pub token_mint: Pubkey,
    pub vote_token_account: Account<VoteTokenAccount>,
    /// The bump seed of the new account.
    pub vote_token_account_bump: u8,
}

/// The accounts of [`init_vote_token_account_callback`].
#[derive(Debug)]
pub struct InitVoteTokenAccountCallback {
    pub vote_token: Account<VoteTokenAccount>,
}

impl InitVoteTokenAccount {
    /// The accounts after the instruction: the new account belongs to the
    /// signer, holds nothing and is locked.
    pub open spec fn submitted(self) -> InitVoteTokenAccount {
        InitVoteTokenAccount {
            vote_token_account: Account {
                data: VoteTokenAccount {
                    bump: self.vote_token_account_bump,
                    owner: self.signer,
                    token_mint: self.token_mint,
                    state_nonce: 0,
                    pending_deposit: 0,
                    locked: true,
                    ..self.vote_token_account.data
                },
                ..self.vote_token_account
            },
            ..self
        }
    }

    /// The arguments of the first balance: the context it is encrypted
    /// under.
    pub open spec fn arguments(user_pubkey: [u8; 32], nonce: u128) -> Seq<Argument> {
        seq![
            Argument::X25519Pubkey(user_pubkey@),
            Argument::PlaintextU128(nonce),
        ]
    }

    /// The one account the callback may write: the new account.
    pub open spec fn callback_accounts(self) -> Seq<CallbackAccount> {
        seq![CallbackAccount { pubkey: self.vote_token_account.key, is_writable: true }]
    }
}

/// Fills in a new vote token account for the signer and queues the
/// computation of its first, empty balance. The account stays locked until
/// the callback.
pub fn init_vote_token_account(
    ctx: &mut InitVoteTokenAccount,
    computation_offset: u64,
    user_pubkey: [u8; 32],
    nonce: u128,
) -> (request: ComputationRequest)
    ensures
        *final(ctx) == old(ctx).submitted(),
        request.describes(
            "init_vote_token_account"@,
            computation_offset,
            InitVoteTokenAccount::arguments(user_pubkey, nonce),
            old(ctx).callback_accounts(),
        ),
{
    ctx.vote_token_account.data.bump = ctx.vote_token_account_bump;
    ctx.vote_token_account.data.owner = ctx.signer;
    ctx.vote_token_account.data.token_mint = ctx.token_mint;
    ctx.vote_token_account.data.state_nonce = 0;
    ctx.vote_token_account.data.pending_deposit = 0;
    ctx.vote_token_account.data.locked = true;

    let builder = new_builder();
    let builder = x25519_pubkey(builder, user_pubkey);
    let builder = plaintext_u128(builder, nonce);
    assert(builder_arguments(builder) =~= InitVoteTokenAccount::arguments(user_pubkey, nonce));
    let args = build(builder);

    let mut callback_accounts: Vec<CallbackAccount> = Vec::new();
    callback_accounts.push(writable(ctx.vote_token_account.key));
    assert(callback_accounts@ =~= old(ctx).callback_accounts());
    queue_computation("init_vote_token_account", computation_offset, args, callback_accounts)
}

impl InitVoteTokenAccountCallback {
    /// Why the result is not applied, if it is not: the circuit cannot
    /// decline, so only a result that does not verify.
    pub open spec fn failure(output: Result<EncryptedOutput<1>, VerificationFailed>) -> Option<
        Failure,
    > {
        match output {
            Err(_) => Some(Failure::VerificationFailed),
            Ok(_) => None,
        }
    }

    /// The accounts after the callback. The account is unlocked whatever the
    /// result, and given the balance of an applied one.
    pub open spec fn settled(
        self,
        output: Result<EncryptedOutput<1>, VerificationFailed>,
    ) -> InitVoteTokenAccountCallback {
        let vta = VoteTokenAccount { locked: false, ..self.vote_token.data };
        InitVoteTokenAccountCallback {
            vote_token: Account {
                data: match output {
                    Err(_) => vta,
                    Ok(o) => VoteTokenAccount {
                        state_nonce: o.nonce,
                        encrypted_state: o.ciphertexts,
                        ..vta
                    },
                },
                ..self.vote_token
            },
        }
    }

    /// What the callback reports.
    pub open spec fn outcome(
        self,
        unix_timestamp: i64,
        output: Result<EncryptedOutput<1>, VerificationFailed>,
    ) -> CallbackOutcome<(), CallbackFailedEvent> {
        match output {
            Err(_) => CallbackOutcome::RolledBack(
                Failure::VerificationFailed,
                CallbackFailedEvent { account: self.vote_token.key, timestamp: unix_timestamp },
            ),
            Ok(_) => CallbackOutcome::Applied(()),
        }
    }
}

/// Settles the creation of a vote token account.
///
/// The account is unlocked before the result is looked at. A result that did
/// not verify is reported as a failure and leaves the account without a
/// balance; the transaction still succeeds. Otherwise the first balance is
/// written.
pub fn init_vote_token_account_callback(
    ctx: &mut InitVoteTokenAccountCallback,
    unix_timestamp: i64,
    output: Result<EncryptedOutput<1>, VerificationFailed>,
) -> (outcome: CallbackOutcome<(), CallbackFailedEvent>)
    ensures
        *final(ctx) == old(ctx).settled(output),
        outcome == old(ctx).outcome(unix_timestamp, output),
{
    ctx.vote_token.data.locked = false;
    let o = match output {
        Ok(o) => o,
        Err(_) => {
            return CallbackOutcome::RolledBack(
                Failure::VerificationFailed,
                CallbackFailedEvent { account: ctx.vote_token.key, timestamp: unix_timestamp },
            );
        },
    };
    ctx.vote_token.data.state_nonce = o.nonce;
    ctx.vote_token.data.encrypted_state = o.ciphertexts;
    CallbackOutcome::Applied(())
}

} // verus!
