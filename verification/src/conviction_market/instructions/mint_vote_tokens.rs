//! Buying and selling vote tokens for lamports: queued by
//! [`mint_vote_tokens`], settled by
//! [`calculate_vote_token_balance_callback`].
//!
//! A purchase is paid when it is queued. A sale is paid by the callback, out
//! of what the vote token account holds above its rent.

use vstd::prelude::*;
use crate::arguments::{
    account, build, builder_arguments, new_builder, plaintext_bool, plaintext_u128, plaintext_u64,
    Argument,
};
use crate::computation::{
    queue_computation, writable, Account, CallbackAccount, CallbackFailedEvent, CallbackOutcome,
    ComputationRequest, EncryptedOutput, Failure, VerificationFailed,
};
use crate::conviction_market::error::ErrorCode;
use crate::conviction_market::state::VoteTokenAccount;
use crate::pubkey::Pubkey;

verus! {

/// The accounts of [`mint_vote_tokens`].
#[derive(Debug)]
pub struct MintVoteTokens {
    pub signer: Pubkey,
    pub vote_token_account: Account<VoteTokenAccount>,
}

/// The accounts of [`calculate_vote_token_balance_callback`], with the
/// lamports that a sale moves.
#[derive(Debug)]
pub struct CalculateVoteTokenBalanceCallback {
    pub vote_token_account: Account<VoteTokenAccount>,
    /// The lamports the vote token account holds.
    pub vote_token_account_lamports: u64,
    /// The lamports the vote token account must keep to stay exempt from
    /// rent.
    pub minimum_balance: u64,
    /// The owner of the vote token account.
    pub user: Pubkey,
    /// The lamports the owner holds.
    pub user_lamports: u64,
}

/// What the circuit that trades vote tokens returns.
#[derive(Clone, Copy, Debug, PartialEq, Eq)]
pub struct CalculateVoteTokenBalanceOutput {
    /// A sale exceeded the balance.
    pub error: bool,
    /// The vote tokens sold; zero for a purchase.
    pub amount_sold: u64,
    pub new_balance: EncryptedOutput<1>,
}

/// A transfer of lamports that the caller is to carry out.
#[derive(Clone, Copy, Debug, PartialEq, Eq)]
pub struct LamportTransfer {
    pub from: Pubkey,
    pub to: Pubkey,
    pub lamports: u64,
}

/// What an accepted trade leaves to do: take the payment of a purchase, then
/// queue the computation.
#[derive(Debug)]
pub struct TradeSubmission {
    pub payment: Option<LamportTransfer>,
    pub request: ComputationRequest,
}

impl MintVoteTokens {
    /// Why the trade is rejected, if it is: the account is locked, or the
    /// price of the trade does not fit in 64 bits, which counts as an
    /// insufficient balance.
    pub open spec fn rejection(self, trade_amount: u64, price: u64) -> Option<ErrorCode> {
        if self.vote_token_account.data.locked {
            Some(ErrorCode::Locked)
        } else if trade_amount * price > u64::MAX {
            Some(ErrorCode::InsufficientBalance)
        } else {
            None
        }
    }

    /// The accounts after an accepted trade: the account is locked.
    pub open spec fn submitted(self) -> MintVoteTokens {
        MintVoteTokens {
            vote_token_account: Account {
                data: VoteTokenAccount { locked: true, ..self.vote_token_account.data },
                ..self.vote_token_account
            },
            ..self
        }
    }

    /// The payment taken when the trade is queued: the price of a purchase,
    /// from the signer to the vote token account; none for a sale.
    pub open spec fn payment(self, trade_amount: u64, buy: bool, price: u64) -> Option<
        LamportTransfer,
    > {
        if buy {
            Some(
                LamportTransfer {
                    from: self.signer,
                    to: self.vote_token_account.key,
                    lamports: (trade_amount * price) as u64,
                },
            )
        } else {
            None
        }
    }

    /// The arguments of the trade: the balance as stored, the amount, and
    /// whether it is a sale.
    pub open spec fn arguments(self, trade_amount: u64, buy: bool) -> Seq<Argument> {
        let vta = self.vote_token_account;
        seq![
            Argument::PlaintextU128(vta.data.state_nonce),
            Argument::Account { pubkey: vta.key.bytes@, offset: 8, length: 32 },
            Argument::PlaintextU64(trade_amount),
            Argument::PlaintextBool(!buy),
        ]
    }

    /// The accounts the callback may write: the vote token account and the
    /// signer.
    pub open spec fn callback_accounts(self) -> Seq<CallbackAccount> {
        seq![
            CallbackAccount { pubkey: self.vote_token_account.key, is_writable: true },
            CallbackAccount { pubkey: self.signer, is_writable: true },
        ]
    }
}

/// Queues a purchase (`buy`) or a sale of `trade_amount` vote tokens at
/// `price_per_vote_token_lamports` each.
///
/// Accepted when the account is not locked and the price of the trade fits
/// in 64 bits; the account is then locked. A rejected trade changes nothing.
pub fn mint_vote_tokens(
    ctx: &mut MintVoteTokens,
    computation_offset: u64,
    trade_amount: u64,
    buy: bool,
    price_per_vote_token_lamports: u64,
) -> (result: Result<TradeSubmission, ErrorCode>)
    ensures
        match result {
            Ok(submission) => {
                &&& old(ctx).rejection(trade_amount, price_per_vote_token_lamports) is None
                &&& *final(ctx) == old(ctx).submitted()
                &&& submission.payment == old(ctx).payment(
                    trade_amount,
                    buy,
                    price_per_vote_token_lamports,
                )
                &&& submission.request.describes(
                    "calculate_vote_token_balance"@,
                    computation_offset,
                    old(ctx).arguments(trade_amount, buy),
                    old(ctx).callback_accounts(),
                )
            },
            Err(e) => {
                &&& old(ctx).rejection(trade_amount, price_per_vote_token_lamports) == Some(e)
                &&& *final(ctx) == *old(ctx)
            },
        },
{
    if ctx.vote_token_account.data.locked {
        return Err(ErrorCode::Locked);
    }
    let vta_pubkey = ctx.vote_token_account.key;
    let lamports_amount = match trade_amount.checked_mul(price_per_vote_token_lamports) {
        Some(lamports) => lamports,
        None => return Err(ErrorCode::InsufficientBalance),
    };
    let payment = if buy {
        Some(LamportTransfer { from: ctx.signer, to: vta_pubkey, lamports: lamports_amount })
    } else {
        None
    };
    let builder = new_builder();
    let builder = plaintext_u128(builder, ctx.vote_token_account.data.state_nonce);
    let builder = account(builder, vta_pubkey, 8, 32 * 1);
    let builder = plaintext_u64(builder, trade_amount);
    let builder = plaintext_bool(builder, !buy);
    assert(builder_arguments(builder) =~= old(ctx).arguments(trade_amount, buy));
    let args = build(builder);

    ctx.vote_token_account.data.locked = true;

    let mut callback_accounts: Vec<CallbackAccount> = Vec::new();
    callback_accounts.push(writable(vta_pubkey));
    callback_accounts.push(writable(ctx.signer));
    assert(callback_accounts@ =~= old(ctx).callback_accounts());
    Ok(
        TradeSubmission {
            payment,
            request: queue_computation(
                "calculate_vote_token_balance",
                computation_offset,
                args,
                callback_accounts,
            ),
        },
    )
}

impl CalculateVoteTokenBalanceCallback {
    /// The lamports a sale of `amount_sold` vote tokens pays: their price,
    /// but no more than the account holds above its rent.
    pub open spec fn proceeds(self, amount_sold: u64, price: u64) -> int {
        let available = if self.vote_token_account_lamports >= self.minimum_balance {
            self.vote_token_account_lamports - self.minimum_balance
        } else {
            0
        };
        if amount_sold * price <= available {
            amount_sold * price
        } else {
            available
        }
    }

    /// Why the result is not applied, if it is not.
    pub open spec fn failure(
        output: Result<CalculateVoteTokenBalanceOutput, VerificationFailed>,
    ) -> Option<Failure> {
        match output {
            Err(_) => Some(Failure::VerificationFailed),
            Ok(res) => if res.error {
                Some(Failure::Declined)
            } else {
                None
            },
        }
    }

    /// Whether the callback is rejected as a whole: only when the result is
    /// to be applied and the price of the sale, or the owner's lamports with
    /// the proceeds on top, do not fit in 64 bits.
    pub open spec fn overflows(
        self,
        output: Result<CalculateVoteTokenBalanceOutput, VerificationFailed>,
        price: u64,
    ) -> bool {
        &&& Self::failure(output) is None
        &&& (output->Ok_0.amount_sold * price > u64::MAX || self.user_lamports + self.proceeds(
            output->Ok_0.amount_sold,
            price,
        ) > u64::MAX)
    }

    /// The accounts after a callback that is not rejected. The account is
    /// unlocked whatever the result. An applied result moves the proceeds of
    /// a sale to the owner and replaces the balance.
    pub open spec fn settled(
        self,
        output: Result<CalculateVoteTokenBalanceOutput, VerificationFailed>,
        price: u64,
    ) -> CalculateVoteTokenBalanceCallback {
        let vta = VoteTokenAccount { locked: false, ..self.vote_token_account.data };
        if Self::failure(output) is Some {
            CalculateVoteTokenBalanceCallback {
                vote_token_account: Account { data: vta, ..self.vote_token_account },
                ..self
            }
        } else {
            let res = output->Ok_0;
            CalculateVoteTokenBalanceCallback {
                vote_token_account: Account {
                    data: VoteTokenAccount {
                        state_nonce: res.new_balance.nonce,
                        encrypted_state: res.new_balance.ciphertexts,
                        ..vta
                    },
                    ..self.vote_token_account
                },
                vote_token_account_lamports: (self.vote_token_account_lamports - self.proceeds(
                    res.amount_sold,
                    price,
                )) as u64,
                user_lamports: (self.user_lamports + self.proceeds(res.amount_sold, price)) as u64,
                ..self
            }
        }
    }

    /// What a callback that is not rejected reports.
    pub open spec fn outcome(
        self,
        unix_timestamp: i64,
        output: Result<CalculateVoteTokenBalanceOutput, VerificationFailed>,
    ) -> CallbackOutcome<(), CallbackFailedEvent> {
        match Self::failure(output) {
            Some(failure) => CallbackOutcome::RolledBack(
                failure,
                CallbackFailedEvent {
                    account: self.vote_token_account.key,
                    timestamp: unix_timestamp,
                },
            ),
            None => CallbackOutcome::Applied(()),
        }
    }
}

/// Settles a trade of vote tokens.
///
/// The account is unlocked before the result is looked at. A result that did
/// not verify, or one whose error flag is set, is reported as a failure, pays
/// nothing and leaves the balance as it was; the transaction still succeeds.
/// Otherwise the proceeds of a sale are paid to the owner and the new balance
/// is written. If a sum does not fit in 64 bits the callback is rejected and
/// changes nothing.
pub fn calculate_vote_token_balance_callback(
    ctx: &mut CalculateVoteTokenBalanceCallback,
    unix_timestamp: i64,
    output: Result<CalculateVoteTokenBalanceOutput, VerificationFailed>,
    price_per_vote_token_lamports: u64,
) -> (result: Result<CallbackOutcome<(), CallbackFailedEvent>, ErrorCode>)
    ensures
        match result {
            Ok(outcome) => {
                &&& !old(ctx).overflows(output, price_per_vote_token_lamports)
                &&& *final(ctx) == old(ctx).settled(output, price_per_vote_token_lamports)
                &&& outcome == old(ctx).outcome(unix_timestamp, output)
            },
            Err(e) => {
                &&& old(ctx).overflows(output, price_per_vote_token_lamports)
                &&& e == ErrorCode::Overflow
                &&& *final(ctx) == *old(ctx)
            },
        },
{
    let account = ctx.vote_token_account.key;
    let res = match output {
        Ok(res) => res,
        Err(_) => {
            ctx.vote_token_account.data.locked = false;
            return Ok(
                CallbackOutcome::RolledBack(
                    Failure::VerificationFailed,
                    CallbackFailedEvent { account, timestamp: unix_timestamp },
                ),
            );
        },
    };
    if res.error {
        ctx.vote_token_account.data.locked = false;
        return Ok(
            CallbackOutcome::RolledBack(
                Failure::Declined,
                CallbackFailedEvent { account, timestamp: unix_timestamp },
            ),
        );
    }
    let amount_sold = res.amount_sold;
    let encrypted_balance = res.new_balance;

    let available = ctx.vote_token_account_lamports.saturating_sub(ctx.minimum_balance);
    let amount_sold_lamports = match amount_sold.checked_mul(price_per_vote_token_lamports) {
        Some(lamports) => lamports,
        None => return Err(ErrorCode::Overflow),
    };
    let transfer_amount = if amount_sold_lamports <= available {
        amount_sold_lamports
    } else {
        available
    };
    let user_lamports = match ctx.user_lamports.checked_add(transfer_amount) {
        Some(lamports) => lamports,
        None => return Err(ErrorCode::Overflow),
    };
    ctx.vote_token_account.data.locked = false;
    ctx.vote_token_account_lamports = ctx.vote_token_account_lamports - transfer_amount;
    ctx.user_lamports = user_lamports;

    ctx.vote_token_account.data.state_nonce = encrypted_balance.nonce;
    ctx.vote_token_account.data.encrypted_state = encrypted_balance.ciphertexts;
    Ok(CallbackOutcome::Applied(()))
}

} // verus!
