//! What holds of every submit and of every submit followed by its callback.
//!
//! Four kinds of account carry a lock: encrypted token accounts, share
//! accounts, vote token accounts and markets. A submit that will have such an account
//! written names it as a target, requires it unlocked and locks it; the
//! callback unlocks it again, whatever the cluster returned. The laws below
//! are stated over the spec functions that the handlers' own contracts use,
//! so they hold of the handlers themselves.

use vstd::prelude::*;
use crate::computation::{EncryptedOutput, VerificationFailed};
use crate::opportunity_market::error::ErrorCode;
use crate::opportunity_market::instructions::add_market_option::{
    AddMarketOption, AddOptionStakeCallback, AddOptionStakeOutput,
};
use crate::opportunity_market::instructions::claim_pending_deposit::ClaimPendingDeposit;
use crate::opportunity_market::instructions::claim_vote_tokens::{
    ClaimVoteTokens, ClaimVoteTokensCallback, ClaimVoteTokensOutput,
};
use crate::opportunity_market::instructions::create_market::{
    CreateMarket, InitMarketSharesCallback,
};
use crate::opportunity_market::instructions::close_ephemeral_encrypted_token_account::{
    CloseEphemeralEncryptedTokenAccount, CloseEphemeralEncryptedTokenAccountCallback,
};
use crate::opportunity_market::instructions::init_vote_token_account::{
    InitVoteTokenAccount, InitVoteTokenAccountCallback,
};
use crate::opportunity_market::instructions::mint_vote_tokens::{
    BuyVoteTokensCallback, BuyVoteTokensOutput, MintVoteTokens,
};
use crate::opportunity_market::instructions::reveal_shares::{
    RevealShares, RevealSharesCallback, RevealSharesOutput,
};
use crate::opportunity_market::instructions::stake::{
    BuyOpportunityMarketSharesCallback, BuyOpportunityMarketSharesOutput, Stake,
};
use crate::opportunity_market::instructions::unstake_early::{UnstakeEarly, UnstakeEarlyCallback};
use crate::opportunity_market::instructions::unwrap_encrypted_tokens::{
    UnwrapEncryptedTokens, UnwrapEncryptedTokensCallback, UnwrapEncryptedTokensOutput,
};
use crate::opportunity_market::instructions::wrap_encrypted_tokens::{
    WrapEncryptedTokens, WrapEncryptedTokensCallback,
};
use crate::pubkey::Pubkey;
use crate::opportunity_market::state::{
    EncryptedTokenAccount, OpportunityMarket, ShareAccount, VoteTokenAccount,
};

verus! {

/// A submit that names an encrypted token account, with its inputs.
pub enum BalanceSubmit {
    Stake(Stake, i64),
    RevealShares(RevealShares, i64),
    UnstakeEarly(UnstakeEarly, i64),
    Unwrap(UnwrapEncryptedTokens),
    Wrap(WrapEncryptedTokens, u64),
    /// The closing of an ephemeral account, seen from the regular account.
    CloseInto(CloseEphemeralEncryptedTokenAccount),
    /// The same, seen from the ephemeral account.
    CloseFrom(CloseEphemeralEncryptedTokenAccount),
}

impl BalanceSubmit {
    /// The account the submit names, as the submit finds it.
    pub open spec fn balance(self) -> EncryptedTokenAccount {
        match self {
            BalanceSubmit::Stake(ctx, _) => ctx.user_eta.data,
            BalanceSubmit::RevealShares(ctx, _) => ctx.user_eta.data,
            BalanceSubmit::UnstakeEarly(ctx, _) => ctx.user_eta.data,
            BalanceSubmit::Unwrap(ctx) => ctx.encrypted_token_account.data,
            BalanceSubmit::Wrap(ctx, _) => ctx.encrypted_token_account.data,
            BalanceSubmit::CloseInto(ctx) => ctx.regular_encrypted_token_account.data,
            BalanceSubmit::CloseFrom(ctx) => ctx.ephemeral_encrypted_token_account.data,
        }
    }

    /// Why the submit is rejected, if it is.
    pub open spec fn rejection(self) -> Option<ErrorCode> {
        match self {
            BalanceSubmit::Stake(ctx, now) => ctx.rejection(now),
            BalanceSubmit::RevealShares(ctx, now) => ctx.rejection(now),
            BalanceSubmit::UnstakeEarly(ctx, now) => ctx.rejection(now),
            BalanceSubmit::Unwrap(ctx) => ctx.rejection(),
            BalanceSubmit::Wrap(ctx, amount) => ctx.rejection(amount),
            BalanceSubmit::CloseInto(ctx) => ctx.rejection(),
            BalanceSubmit::CloseFrom(ctx) => ctx.rejection(),
        }
    }

    /// Whether the callback will write the account.
    pub open spec fn targets_balance(self) -> bool {
        match self {
            BalanceSubmit::RevealShares(ctx, _) => ctx.credits_balance(),
            _ => true,
        }
    }

    /// The account as an accepted submit leaves it.
    pub open spec fn balance_after(self) -> EncryptedTokenAccount {
        match self {
            BalanceSubmit::Stake(ctx, now) => ctx.submitted(now).user_eta.data,
            BalanceSubmit::RevealShares(ctx, _) => ctx.submitted().user_eta.data,
            BalanceSubmit::UnstakeEarly(ctx, _) => ctx.submitted().user_eta.data,
            BalanceSubmit::Unwrap(ctx) => ctx.submitted().encrypted_token_account.data,
            BalanceSubmit::Wrap(ctx, amount) => ctx.submitted(amount).encrypted_token_account.data,
            BalanceSubmit::CloseInto(ctx) => ctx.submitted().regular_encrypted_token_account.data,
            BalanceSubmit::CloseFrom(ctx) => ctx.submitted().ephemeral_encrypted_token_account.data,
        }
    }
}

/// A submit that names a share account, with its inputs.
pub enum ShareSubmit {
    Stake(Stake, i64),
    RevealShares(RevealShares, i64),
    UnstakeEarly(UnstakeEarly, i64),
}

impl ShareSubmit {
    /// The account the submit names, as the submit finds it.
    pub open spec fn share_account(self) -> ShareAccount {
        match self {
            ShareSubmit::Stake(ctx, _) => ctx.share_account.data,
            ShareSubmit::RevealShares(ctx, _) => ctx.share_account.data,
            ShareSubmit::UnstakeEarly(ctx, _) => ctx.share_account.data,
        }
    }

    /// Why the submit is rejected, if it is.
    pub open spec fn rejection(self) -> Option<ErrorCode> {
        match self {
            ShareSubmit::Stake(ctx, now) => ctx.rejection(now),
            ShareSubmit::RevealShares(ctx, now) => ctx.rejection(now),
            ShareSubmit::UnstakeEarly(ctx, now) => ctx.rejection(now),
        }
    }

    /// The account as an accepted submit leaves it.
    pub open spec fn share_account_after(self) -> ShareAccount {
        match self {
            ShareSubmit::Stake(ctx, now) => ctx.submitted(now).share_account.data,
            ShareSubmit::RevealShares(ctx, _) => ctx.submitted().share_account.data,
            ShareSubmit::UnstakeEarly(ctx, _) => ctx.submitted().share_account.data,
        }
    }
}

/// A submit that names an existing vote token account, with its inputs.
pub enum VoteTokenSubmit {
    AddMarketOption(AddMarketOption, i64, u16, String, u128),
    Mint(MintVoteTokens, u64),
    Claim(ClaimVoteTokens),
}

impl VoteTokenSubmit {
    /// The account the submit names, as the submit finds it.
    pub open spec fn vote_token_account(self) -> VoteTokenAccount {
        match self {
            VoteTokenSubmit::AddMarketOption(ctx, _, _, _, _) => ctx.source_vta.data,
            VoteTokenSubmit::Mint(ctx, _) => ctx.vote_token_account.data,
            VoteTokenSubmit::Claim(ctx) => ctx.vote_token_account.data,
        }
    }

    /// Why the submit is rejected, if it is.
    pub open spec fn rejection(self) -> Option<ErrorCode> {
        match self {
            VoteTokenSubmit::AddMarketOption(ctx, now, option_index, _, _) => ctx.rejection(
                now,
                option_index,
            ),
            VoteTokenSubmit::Mint(ctx, amount) => ctx.rejection(amount),
            VoteTokenSubmit::Claim(ctx) => ctx.rejection(),
        }
    }

    /// The account as an accepted submit leaves it.
    pub open spec fn vote_token_account_after(self) -> VoteTokenAccount {
        match self {
            VoteTokenSubmit::AddMarketOption(ctx, now, option_index, name, nonce) => ctx.submitted(
                now,
                option_index,
                name,
                nonce,
            ).source_vta.data,
            VoteTokenSubmit::Mint(ctx, amount) => ctx.submitted(amount).vote_token_account.data,
            VoteTokenSubmit::Claim(ctx) => ctx.submitted().vote_token_account.data,
        }
    }
}

/// A submit that names a locked encrypted token account is rejected,
/// whichever instruction it is.
pub proof fn lemma_locked_balance_is_refused(submit: BalanceSubmit)
    requires
        submit.balance().locked,
    ensures
        submit.rejection() is Some,
{
}

/// A submit that names a locked share account is rejected, whichever
/// instruction it is.
pub proof fn lemma_locked_share_account_is_refused(submit: ShareSubmit)
    requires
        submit.share_account().locked,
    ensures
        submit.rejection() is Some,
{
}

/// A submit that names a locked vote token account is rejected, whichever
/// instruction it is.
pub proof fn lemma_locked_vote_token_account_is_refused(submit: VoteTokenSubmit)
    requires
        submit.vote_token_account().locked,
    ensures
        submit.rejection() is Some,
{
}

/// At most one computation in flight on an encrypted token account: once a
/// submit that targets the account is accepted, any submit that finds the
/// account as the first one left it is rejected, whichever the two
/// instructions are.
pub proof fn lemma_one_in_flight_per_balance(first: BalanceSubmit, second: BalanceSubmit)
    requires
        first.rejection() is None,
        first.targets_balance(),
        second.balance() == first.balance_after(),
    ensures
        first.balance_after().locked,
        second.rejection() is Some,
{
}

/// At most one computation in flight on a share account: once a submit that
/// names the account is accepted, any submit that finds the account as the
/// first one left it is rejected, whichever the two instructions are.
pub proof fn lemma_one_in_flight_per_share_account(first: ShareSubmit, second: ShareSubmit)
    requires
        first.rejection() is None,
        second.share_account() == first.share_account_after(),
    ensures
        first.share_account_after().locked,
        second.rejection() is Some,
{
}

/// At most one computation in flight on a vote token account: once a submit
/// that names the account is accepted, any submit that finds the account as
/// the first one left it is rejected, whichever the two instructions are.
pub proof fn lemma_one_in_flight_per_vote_token_account(
    first: VoteTokenSubmit,
    second: VoteTokenSubmit,
)
    requires
        first.rejection() is None,
        second.vote_token_account() == first.vote_token_account_after(),
    ensures
        first.vote_token_account_after().locked,
        second.rejection() is Some,
{
}

/// A new vote token account is locked from its creation on, so that no
/// submit can name it before its first balance has arrived.
pub proof fn lemma_new_vote_token_account_is_locked(
    ctx: InitVoteTokenAccount,
    second: VoteTokenSubmit,
)
    requires
        second.vote_token_account() == ctx.submitted().vote_token_account.data,
    ensures
        second.rejection() is Some,
{
}

/// At most one computation in flight on a market's share supply: a new
/// market, and a market on which the stake of a new option is in flight, is
/// locked, and an option with a stake that names a locked market is
/// rejected.
pub proof fn lemma_one_in_flight_per_market(
    created: CreateMarket,
    market_index: u64,
    max_shares: u64,
    reward_lamports: u64,
    time_to_stake: u64,
    time_to_reveal: u64,
    market_authority: Option<Pubkey>,
    first: AddMarketOption,
    first_timestamp: i64,
    first_option: u16,
    first_name: String,
    first_nonce: u128,
    second: AddMarketOption,
    second_timestamp: i64,
    second_option: u16,
)
    ensures
        created.created(
            market_index,
            max_shares,
            reward_lamports,
            time_to_stake,
            time_to_reveal,
            market_authority,
        ).market.data.locked,
        first.rejection(first_timestamp, first_option) is None ==> first.submitted(
            first_timestamp,
            first_option,
            first_name,
            first_nonce,
        ).market.data.locked,
        second.market.data.locked ==> second.rejection(second_timestamp, second_option) is Some,
{
}

/// No stuck locks after the creation of a market: whether or not the result
/// verifies, the market is unlocked after the callback.
pub proof fn lemma_create_market_unlocks(
    market: InitMarketSharesCallback,
    output: Result<EncryptedOutput<1>, VerificationFailed>,
)
    ensures
        !market.settled(output).market.data.locked,
{
}

/// The accounts of the stake callback as an accepted stake leaves them.
pub open spec fn after_stake(
    ctx: Stake,
    unix_timestamp: i64,
) -> BuyOpportunityMarketSharesCallback {
    BuyOpportunityMarketSharesCallback {
        user_encrypted_token_account: ctx.submitted(unix_timestamp).user_eta,
        share_account: ctx.submitted(unix_timestamp).share_account,
    }
}

/// No stuck locks after a stake: whichever of the three results the callback
/// is handed, both accounts are unlocked after it.
pub proof fn lemma_stake_unlocks(
    ctx: Stake,
    unix_timestamp: i64,
    output: Result<BuyOpportunityMarketSharesOutput, VerificationFailed>,
)
    requires
        ctx.rejection(unix_timestamp) is None,
    ensures
        !after_stake(ctx, unix_timestamp).settled(output).user_encrypted_token_account.data.locked,
        !after_stake(ctx, unix_timestamp).settled(output).share_account.data.locked,
{
}

/// Rollback after a stake: when the result does not verify or the circuit
/// declines, both accounts are again exactly what they were before the
/// stake. In particular the time of the stake is cleared.
pub proof fn lemma_stake_rolls_back(
    ctx: Stake,
    unix_timestamp: i64,
    output: Result<BuyOpportunityMarketSharesOutput, VerificationFailed>,
)
    requires
        ctx.rejection(unix_timestamp) is None,
        BuyOpportunityMarketSharesCallback::failure(output) is Some,
    ensures
        after_stake(ctx, unix_timestamp).settled(output).user_encrypted_token_account
            == ctx.user_eta,
        after_stake(ctx, unix_timestamp).settled(output).share_account == ctx.share_account,
        after_stake(ctx, unix_timestamp).settled(output).share_account.data.staked_at_timestamp
            == ctx.share_account.data.staked_at_timestamp,
{
}

/// The accounts of the callback as an accepted option leaves them.
pub open spec fn after_add_market_option(
    ctx: AddMarketOption,
    unix_timestamp: i64,
    option_index: u16,
    name: String,
    share_account_nonce: u128,
) -> AddOptionStakeCallback {
    let after = ctx.submitted(unix_timestamp, option_index, name, share_account_nonce);
    AddOptionStakeCallback {
        source_vta: after.source_vta,
        market: after.market,
        share_account: after.share_account,
    }
}

/// No stuck locks after adding an option: whichever of the three results
/// the callback is handed, the vote token account, the market and the new
/// share account are unlocked after it.
pub proof fn lemma_add_market_option_unlocks(
    ctx: AddMarketOption,
    unix_timestamp: i64,
    option_index: u16,
    name: String,
    share_account_nonce: u128,
    output: Result<AddOptionStakeOutput, VerificationFailed>,
)
    requires
        ctx.rejection(unix_timestamp, option_index) is None,
    ensures
        !after_add_market_option(
            ctx,
            unix_timestamp,
            option_index,
            name,
            share_account_nonce,
        ).settled(output).source_vta.data.locked,
        !after_add_market_option(
            ctx,
            unix_timestamp,
            option_index,
            name,
            share_account_nonce,
        ).settled(output).market.data.locked,
        !after_add_market_option(
            ctx,
            unix_timestamp,
            option_index,
            name,
            share_account_nonce,
        ).settled(output).share_account.data.locked,
{
}

/// The share account that comes with a new option is locked while the stake
/// on the option is in flight, so that no submit can name it before the
/// callback.
pub proof fn lemma_new_share_account_is_locked(
    ctx: AddMarketOption,
    unix_timestamp: i64,
    option_index: u16,
    name: String,
    share_account_nonce: u128,
    second: ShareSubmit,
)
    requires
        second.share_account() == ctx.submitted(
            unix_timestamp,
            option_index,
            name,
            share_account_nonce,
        ).share_account.data,
    ensures
        second.rejection() is Some,
{
}

/// Rollback after adding an option: when the result does not verify or the
/// circuit declines, the vote token account is again exactly what it was,
/// the market is what it was but for the option it now counts, and the new
/// share account carries no time of stake. The option itself stays.
pub proof fn lemma_add_market_option_rolls_back(
    ctx: AddMarketOption,
    unix_timestamp: i64,
    option_index: u16,
    name: String,
    share_account_nonce: u128,
    output: Result<AddOptionStakeOutput, VerificationFailed>,
)
    requires
        ctx.rejection(unix_timestamp, option_index) is None,
        AddOptionStakeCallback::failure(output) is Some,
    ensures
        ({
            let settled = after_add_market_option(
                ctx,
                unix_timestamp,
                option_index,
                name,
                share_account_nonce,
            ).settled(output);
            &&& settled.source_vta == ctx.source_vta
            &&& settled.share_account.data.staked_at_timestamp is None
            &&& settled.market.data == (OpportunityMarket {
                total_options: option_index,
                ..ctx.market.data
            })
        }),
{
}

/// The accounts of the callback as an accepted reveal leaves them.
pub open spec fn after_reveal_shares(ctx: RevealShares) -> RevealSharesCallback {
    RevealSharesCallback {
        share_account: ctx.submitted().share_account,
        user_eta: ctx.submitted().user_eta,
    }
}

/// No stuck locks after a reveal: whether or not the result verifies, both
/// accounts are unlocked after the callback.
pub proof fn lemma_reveal_shares_unlocks(
    ctx: RevealShares,
    unix_timestamp: i64,
    output: Result<RevealSharesOutput, VerificationFailed>,
)
    requires
        ctx.rejection(unix_timestamp) is None,
    ensures
        !after_reveal_shares(ctx).settled(output).share_account.data.locked,
        !after_reveal_shares(ctx).settled(output).user_eta.data.locked,
{
}

/// Rollback after a reveal: when the result does not verify, both accounts
/// are again exactly what they were before the reveal.
pub proof fn lemma_reveal_shares_rolls_back(
    ctx: RevealShares,
    unix_timestamp: i64,
    output: Result<RevealSharesOutput, VerificationFailed>,
)
    requires
        ctx.rejection(unix_timestamp) is None,
        output is Err,
    ensures
        after_reveal_shares(ctx).settled(output).share_account == ctx.share_account,
        after_reveal_shares(ctx).settled(output).user_eta == ctx.user_eta,
{
}

/// The accounts of the callback as an accepted early withdrawal leaves them.
pub open spec fn after_unstake_early(ctx: UnstakeEarly) -> UnstakeEarlyCallback {
    UnstakeEarlyCallback {
        user_eta: ctx.submitted().user_eta,
        share_account: ctx.submitted().share_account,
    }
}

/// No stuck locks after an early withdrawal: whether or not the result
/// verifies, both accounts are unlocked after the callback.
pub proof fn lemma_unstake_early_unlocks(
    ctx: UnstakeEarly,
    unix_timestamp: i64,
    callback_timestamp: i64,
    output: Result<EncryptedOutput<1>, VerificationFailed>,
)
    requires
        ctx.rejection(unix_timestamp) is None,
    ensures
        !after_unstake_early(ctx).settled(callback_timestamp, output).user_eta.data.locked,
        !after_unstake_early(ctx).settled(callback_timestamp, output).share_account.data.locked,
{
}

/// Rollback after an early withdrawal: when the result does not verify, both
/// accounts are again exactly what they were before it.
pub proof fn lemma_unstake_early_rolls_back(
    ctx: UnstakeEarly,
    unix_timestamp: i64,
    callback_timestamp: i64,
    output: Result<EncryptedOutput<1>, VerificationFailed>,
)
    requires
        ctx.rejection(unix_timestamp) is None,
        output is Err,
    ensures
        after_unstake_early(ctx).settled(callback_timestamp, output).user_eta == ctx.user_eta,
        after_unstake_early(ctx).settled(callback_timestamp, output).share_account
            == ctx.share_account,
{
}

/// The accounts of the callback as an accepted withdrawal leaves them.
pub open spec fn after_unwrap(ctx: UnwrapEncryptedTokens) -> UnwrapEncryptedTokensCallback {
    UnwrapEncryptedTokensCallback {
        encrypted_token_account: ctx.submitted().encrypted_token_account,
        user_token_account: ctx.user_token_account,
        token_vault: ctx.token_vault,
        token_vault_ata: ctx.token_vault_ata,
        token_mint: ctx.token_mint,
    }
}

/// No stuck locks after a withdrawal: whichever of the three results the
/// callback is handed, the balance is unlocked after it.
pub proof fn lemma_unwrap_unlocks(
    ctx: UnwrapEncryptedTokens,
    output: Result<UnwrapEncryptedTokensOutput, VerificationFailed>,
)
    requires
        ctx.rejection() is None,
    ensures
        !after_unwrap(ctx).settled(output).encrypted_token_account.data.locked,
{
}

/// Rollback after a withdrawal: when the result does not verify or the
/// circuit declines, the balance is again exactly what it was, and nothing
/// is paid out.
pub proof fn lemma_unwrap_rolls_back(
    ctx: UnwrapEncryptedTokens,
    unix_timestamp: i64,
    output: Result<UnwrapEncryptedTokensOutput, VerificationFailed>,
)
    requires
        ctx.rejection() is None,
        UnwrapEncryptedTokensCallback::failure(output) is Some,
    ensures
        after_unwrap(ctx).settled(output).encrypted_token_account == ctx.encrypted_token_account,
        after_unwrap(ctx).outcome(unix_timestamp, output) is RolledBack,
{
}

/// The accounts of the callback as an accepted deposit leaves them.
pub open spec fn after_wrap(ctx: WrapEncryptedTokens, amount: u64) -> WrapEncryptedTokensCallback {
    WrapEncryptedTokensCallback {
        encrypted_token_account: ctx.submitted(amount).encrypted_token_account,
    }
}

/// No stuck locks after a deposit: whichever result the callback is handed,
/// and also for a deposit of nothing, the balance is unlocked after it.
pub proof fn lemma_wrap_unlocks(
    ctx: WrapEncryptedTokens,
    amount: u64,
    output: Result<EncryptedOutput<1>, VerificationFailed>,
)
    requires
        ctx.rejection(amount) is None,
    ensures
        !after_wrap(ctx, amount).settled(output).encrypted_token_account.data.locked,
{
}

/// After a deposit whose result does not verify, the balance is what it was
/// before the deposit but for the pending deposit, which still counts the
/// tokens that went into the vault; claiming it pays exactly the pending
/// tokens back and leaves nothing pending.
pub proof fn lemma_failed_wrap_is_refundable(
    ctx: WrapEncryptedTokens,
    amount: u64,
    output: Result<EncryptedOutput<1>, VerificationFailed>,
    claim: ClaimPendingDeposit,
)
    requires
        ctx.rejection(amount) is None,
        output is Err,
        claim.encrypted_token_account == after_wrap(ctx, amount).settled(
            output,
        ).encrypted_token_account,
        claim.signer == ctx.signer,
        claim.token_mint == ctx.token_mint,
    ensures
        claim.encrypted_token_account.data == (EncryptedTokenAccount {
            pending_deposit: (ctx.encrypted_token_account.data.pending_deposit + amount) as u64,
            ..ctx.encrypted_token_account.data
        }),
        claim.rejection() is None,
        amount > 0 ==> claim.refund() is Some && claim.refund()->0.amount
            == ctx.encrypted_token_account.data.pending_deposit + amount,
        claim.claimed().encrypted_token_account.data.pending_deposit == 0,
        !claim.claimed().encrypted_token_account.data.locked,
{
}

/// Only a callback unlocks: a claim of a pending deposit is rejected while
/// the account is locked, and an accepted one leaves the lock as it is.
pub proof fn lemma_claim_leaves_the_lock(claim: ClaimPendingDeposit)
    ensures
        claim.encrypted_token_account.data.locked ==> claim.rejection() is Some,
        claim.claimed().encrypted_token_account.data.locked
            == claim.encrypted_token_account.data.locked,
{
}

/// The accounts of the callback as an accepted closing leaves them, with
/// the lamports given.
pub open spec fn after_close_ephemeral(
    ctx: CloseEphemeralEncryptedTokenAccount,
    ephemeral_lamports: u64,
    rent_recipient_lamports: u64,
) -> CloseEphemeralEncryptedTokenAccountCallback {
    CloseEphemeralEncryptedTokenAccountCallback {
        regular_encrypted_token_account: ctx.submitted().regular_encrypted_token_account,
        ephemeral_encrypted_token_account: ctx.submitted().ephemeral_encrypted_token_account,
        ephemeral_lamports,
        rent_recipient: ctx.rent_recipient,
        rent_recipient_lamports,
    }
}

/// No stuck locks after the closing of an ephemeral account: whether or not
/// the result verifies, both balances are unlocked after a callback that is
/// not rejected, which it is only when the rent would not fit in 64 bits on
/// top of what its recipient holds.
pub proof fn lemma_close_ephemeral_unlocks(
    ctx: CloseEphemeralEncryptedTokenAccount,
    ephemeral_lamports: u64,
    rent_recipient_lamports: u64,
    output: Result<EncryptedOutput<1>, VerificationFailed>,
)
    requires
        ctx.rejection() is None,
        rent_recipient_lamports + ephemeral_lamports <= u64::MAX,
    ensures
        ({
            let callback = after_close_ephemeral(ctx, ephemeral_lamports, rent_recipient_lamports);
            &&& !callback.overflows(output)
            &&& !callback.settled(output).regular_encrypted_token_account.data.locked
            &&& !callback.settled(output).ephemeral_encrypted_token_account.data.locked
        }),
{
}

/// Rollback after the closing of an ephemeral account: when the result does
/// not verify, both balances are again exactly what they were, and no
/// lamport has moved.
pub proof fn lemma_close_ephemeral_rolls_back(
    ctx: CloseEphemeralEncryptedTokenAccount,
    ephemeral_lamports: u64,
    rent_recipient_lamports: u64,
    output: Result<EncryptedOutput<1>, VerificationFailed>,
)
    requires
        ctx.rejection() is None,
        output is Err,
    ensures
        ({
            let callback = after_close_ephemeral(ctx, ephemeral_lamports, rent_recipient_lamports);
            &&& !callback.overflows(output)
            &&& callback.settled(output).regular_encrypted_token_account
                == ctx.regular_encrypted_token_account
            &&& callback.settled(output).ephemeral_encrypted_token_account
                == ctx.ephemeral_encrypted_token_account
            &&& callback.settled(output).ephemeral_lamports == ephemeral_lamports
            &&& callback.settled(output).rent_recipient_lamports == rent_recipient_lamports
        }),
{
}

/// The accounts of the callback as an accepted purchase of vote tokens
/// leaves them.
pub open spec fn after_mint_vote_tokens(ctx: MintVoteTokens, amount: u64) -> BuyVoteTokensCallback {
    BuyVoteTokensCallback { vote_token_account: ctx.submitted(amount).vote_token_account }
}

/// No stuck locks after a purchase of vote tokens: whichever result the
/// callback is handed, the account is unlocked after it.
pub proof fn lemma_mint_vote_tokens_unlocks(
    ctx: MintVoteTokens,
    amount: u64,
    output: Result<BuyVoteTokensOutput, VerificationFailed>,
)
    requires
        ctx.rejection(amount) is None,
    ensures
        !after_mint_vote_tokens(ctx, amount).settled(output).vote_token_account.data.locked,
{
}

/// After a purchase of vote tokens that is not applied, the account is what
/// it was before the purchase but for the pending deposit, which still
/// counts the tokens that were moved in.
pub proof fn lemma_failed_mint_keeps_the_deposit(
    ctx: MintVoteTokens,
    amount: u64,
    output: Result<BuyVoteTokensOutput, VerificationFailed>,
)
    requires
        ctx.rejection(amount) is None,
        after_mint_vote_tokens(ctx, amount).failure(output) is Some,
    ensures
        after_mint_vote_tokens(ctx, amount).settled(output).vote_token_account.data == (
        VoteTokenAccount {
            pending_deposit: (ctx.vote_token_account.data.pending_deposit + amount) as u64,
            ..ctx.vote_token_account.data
        }),
{
}

/// The accounts of the callback as an accepted sale of vote tokens leaves
/// them.
pub open spec fn after_claim_vote_tokens(ctx: ClaimVoteTokens) -> ClaimVoteTokensCallback {
    ClaimVoteTokensCallback {
        vote_token_account: ctx.submitted().vote_token_account,
        user_token_account: ctx.user_token_account,
        vote_token_ata: ctx.vote_token_ata,
        token_mint: ctx.token_mint,
    }
}

/// No stuck locks after a sale of vote tokens: whichever of the three
/// results the callback is handed, the account is unlocked after it.
pub proof fn lemma_claim_vote_tokens_unlocks(
    ctx: ClaimVoteTokens,
    output: Result<ClaimVoteTokensOutput, VerificationFailed>,
)
    requires
        ctx.rejection() is None,
    ensures
        !after_claim_vote_tokens(ctx).settled(output).vote_token_account.data.locked,
{
}

/// Rollback after a sale of vote tokens: when the result does not verify or
/// the circuit declines, the account is again exactly what it was, and
/// nothing is paid out.
pub proof fn lemma_claim_vote_tokens_rolls_back(
    ctx: ClaimVoteTokens,
    unix_timestamp: i64,
    output: Result<ClaimVoteTokensOutput, VerificationFailed>,
)
    requires
        ctx.rejection() is None,
        ClaimVoteTokensCallback::failure(output) is Some,
    ensures
        after_claim_vote_tokens(ctx).settled(output).vote_token_account == ctx.vote_token_account,
        after_claim_vote_tokens(ctx).outcome(unix_timestamp, output) is RolledBack,
{
}

/// No stuck locks after the creation of a vote token account: whether or
/// not the result verifies, the account is unlocked after the callback.
pub proof fn lemma_init_vote_token_account_unlocks(
    ctx: InitVoteTokenAccount,
    output: Result<EncryptedOutput<1>, VerificationFailed>,
)
    ensures
        !(InitVoteTokenAccountCallback {
            vote_token: ctx.submitted().vote_token_account,
        }).settled(output).vote_token.data.locked,
{
}

} // verus!
