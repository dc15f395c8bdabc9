//! Adding an option to an open market together with a first stake on it:
//! queued by [`add_market_option`], settled by
//! [`add_market_option_callback`].

use vstd::prelude::*;
use crate::arguments::{
    account, build, builder_arguments, encrypted_u64, new_builder, plaintext_u128, plaintext_u64,
    x25519_pubkey, Argument,
};
use crate::computation::{
    current_timestamp, queue_computation, timestamp_of, writable, zeroed, Account, CallbackAccount,
    CallbackOutcome, ComputationRequest, EncryptedOutput, Failure, VerificationFailed,
};
use crate::opportunity_market::error::ErrorCode;
use crate::opportunity_market::events::{StakedError, StakedEvent};
use crate::opportunity_market::state::{
    CentralState, OpportunityMarket, OpportunityMarketOption, ShareAccount, VoteTokenAccount,
};
use crate::pubkey::Pubkey;

verus! {

/// The bump seeds of the accounts that [`add_market_option`] creates.
#[derive(Clone, Copy, Debug, PartialEq, Eq)]
pub struct AddMarketOptionBumps {
    pub option: u8,
    pub share_account: u8,
}

/// The accounts of [`add_market_option`]. The option and the share account
/// are new: whatever they hold is overwritten.
#[derive(Debug)]
pub struct AddMarketOption {
    pub creator: Pubkey,
    pub market: Account<OpportunityMarket>,
    pub central_state: Account<CentralState>,
    pub option: Account<OpportunityMarketOption>,
    pub source_vta: Account<VoteTokenAccount>,
    pub share_account: Account<ShareAccount>,
    pub bumps: AddMarketOptionBumps,
}

/// The accounts of [`add_market_option_callback`].
#[derive(Debug)]
pub struct AddOptionStakeCallback {
    pub source_vta: Account<VoteTokenAccount>,
    pub market: Account<OpportunityMarket>,
    pub share_account: Account<ShareAccount>,
}

/// What the circuit that stakes on a new option returns.
#[derive(Clone, Copy, Debug, PartialEq, Eq)]
pub struct AddOptionStakeOutput {
    /// The stake was declined: it was under the minimum deposit or over the
    /// balance.
    pub error: bool,
    pub new_user_balance: EncryptedOutput<1>,
    /// The market's remaining shares, as the cluster returns them.
    pub new_market_shares: EncryptedOutput<1>,
    /// The shares bought, for the owner of the share account.
    pub bought_shares_mxe: EncryptedOutput<2>,
    /// The shares bought, for the market's reader.
    pub bought_shares_shared: EncryptedOutput<2>,
}

impl AddMarketOption {
    /// Why the option is rejected, if it is. The first check that fails
    /// decides. The option must be the next one of the market, and the clock
    /// must stand in the staking window.
    pub open spec fn rejection(self, unix_timestamp: i64, option_index: u16) -> Option<ErrorCode> {
        if self.market.data.selected_option is Some {
            Some(ErrorCode::WinnerAlreadySelected)
        } else if self.market.data.open_timestamp is None {
            Some(ErrorCode::MarketNotOpen)
        } else if self.market.data.locked {
            Some(ErrorCode::Locked)
        } else if self.source_vta.data.owner != self.creator {
            Some(ErrorCode::Unauthorized)
        } else if self.source_vta.data.token_mint != self.market.data.mint {
            Some(ErrorCode::InvalidMint)
        } else if self.source_vta.data.locked {
            Some(ErrorCode::Locked)
        } else if self.market.data.total_options == u16::MAX {
            Some(ErrorCode::Overflow)
        } else if option_index != self.market.data.total_options + 1 {
            Some(ErrorCode::InvalidOptionIndex)
        } else {
            self.market.data.staking_rejection(timestamp_of(unix_timestamp))
        }
    }

    /// The accounts after an accepted option: the market counts one option
    /// more, the option and the share account are filled in, the share
    /// account carries the time of the stake, provisionally, and the market,
    /// the vote token account and the share account are locked.
    pub open spec fn submitted(
        self,
        unix_timestamp: i64,
        option_index: u16,
        name: String,
        share_account_nonce: u128,
    ) -> AddMarketOption {
        AddMarketOption {
            market: Account {
                data: OpportunityMarket {
                    total_options: option_index,
                    locked: true,
                    ..self.market.data
                },
                ..self.market
            },
            option: Account {
                data: OpportunityMarketOption {
                    bump: self.bumps.option,
                    name,
                    total_shares: None,
                    total_score: None,
                    creator: self.creator,
                    ..self.option.data
                },
                ..self.option
            },
            share_account: Account {
                data: ShareAccount {
                    bump: self.bumps.share_account,
                    owner: self.creator,
                    market: self.market.key,
                    state_nonce: share_account_nonce,
                    state_nonce_disclosure: 0,
                    encrypted_state: zeroed::<2>(),
                    encrypted_state_disclosure: zeroed::<2>(),
                    revealed_amount: None,
                    revealed_option: None,
                    revealed_score: None,
                    total_incremented: false,
                    staked_at_timestamp: Some(timestamp_of(unix_timestamp)),
                    unstaked_at_timestamp: None,
                    locked: true,
                    ..self.share_account.data
                },
                ..self.share_account
            },
            source_vta: Account {
                data: VoteTokenAccount { locked: true, ..self.source_vta.data },
                ..self.source_vta
            },
            ..self
        }
    }

    /// The arguments of the stake: the creator's input, the reader's
    /// context, the creator's balance and the market's remaining shares as
    /// stored, the share account's context, and in the clear the minimum
    /// deposit and the option.
    pub open spec fn arguments(
        self,
        option_index: u16,
        amount_ciphertext: [u8; 32],
        user_pubkey: [u8; 32],
        input_nonce: u128,
        authorized_reader_pubkey: [u8; 32],
        authorized_reader_nonce: u128,
        share_account_nonce: u128,
    ) -> Seq<Argument> {
        seq![
            Argument::X25519Pubkey(user_pubkey@),
            Argument::PlaintextU128(input_nonce),
            Argument::EncryptedU64(amount_ciphertext@),
            Argument::X25519Pubkey(authorized_reader_pubkey@),
            Argument::PlaintextU128(authorized_reader_nonce),
            Argument::X25519Pubkey(user_pubkey@),
            Argument::PlaintextU128(self.source_vta.data.state_nonce),
            Argument::Account { pubkey: self.source_vta.key.bytes@, offset: 8, length: 32 },
            Argument::PlaintextU128(self.market.data.state_nonce),
            Argument::Account { pubkey: self.market.key.bytes@, offset: 8, length: 32 },
            Argument::X25519Pubkey(user_pubkey@),
            Argument::PlaintextU128(share_account_nonce),
            Argument::PlaintextU64(self.central_state.data.min_option_deposit),
            Argument::PlaintextU64(option_index as u64),
        ]
    }

    /// The accounts the callback may write: the vote token account, the
    /// market, the share account.
    pub open spec fn callback_accounts(self) -> Seq<CallbackAccount> {
        seq![
            CallbackAccount { pubkey: self.source_vta.key, is_writable: true },
            CallbackAccount { pubkey: self.market.key, is_writable: true },
            CallbackAccount { pubkey: self.share_account.key, is_writable: true },
        ]
    }
}

/// Adds the next option to an open market and queues a first stake on it
/// from the creator's vote tokens.
///
/// Accepted when the market is open, undecided and not locked, the vote
/// token account is the creator's, in the market's mint and not locked, the
/// option is the next in line and the clock stands in the staking window. A
/// rejected option changes nothing.
pub fn add_market_option(
    ctx: &mut AddMarketOption,
    unix_timestamp: i64,
    computation_offset: u64,
    option_index: u16,
    _share_account_id: u32,
    name: String,
    amount_ciphertext: [u8; 32],
    user_pubkey: [u8; 32],
    input_nonce: u128,
    authorized_reader_pubkey: [u8; 32],
    authorized_reader_nonce: u128,
    share_account_nonce: u128,
) -> (result: Result<ComputationRequest, ErrorCode>)
    ensures
        match result {
            Ok(request) => {
                &&& old(ctx).rejection(unix_timestamp, option_index) is None
                &&& *final(ctx) == old(ctx).submitted(
                    unix_timestamp,
                    option_index,
                    name,
                    share_account_nonce,
                )
                &&& request.describes(
                    "add_option_stake"@,
                    computation_offset,
                    old(ctx).arguments(
                        option_index,
                        amount_ciphertext,
                        user_pubkey,
                        input_nonce,
                        authorized_reader_pubkey,
                        authorized_reader_nonce,
                        share_account_nonce,
                    ),
                    old(ctx).callback_accounts(),
                )
            },
            Err(e) => {
                &&& old(ctx).rejection(unix_timestamp, option_index) == Some(e)
                &&& *final(ctx) == *old(ctx)
            },
        },
{
    if ctx.market.data.selected_option.is_some() {
        return Err(ErrorCode::WinnerAlreadySelected);
    }
    if ctx.market.data.open_timestamp.is_none() {
        return Err(ErrorCode::MarketNotOpen);
    }
    if ctx.market.data.locked {
        return Err(ErrorCode::Locked);
    }
    if ctx.source_vta.data.owner != ctx.creator {
        return Err(ErrorCode::Unauthorized);
    }
    if ctx.source_vta.data.token_mint != ctx.market.data.mint {
        return Err(ErrorCode::InvalidMint);
    }
    if ctx.source_vta.data.locked {
        return Err(ErrorCode::Locked);
    }
    let next_option = match ctx.market.data.total_options.checked_add(1) {
        Some(next) => next,
        None => return Err(ErrorCode::Overflow),
    };
    if option_index != next_option {
        return Err(ErrorCode::InvalidOptionIndex);
    }
    let now = current_timestamp(unix_timestamp);
    match ctx.market.data.require_staking_active(now) {
        Ok(_) => {},
        Err(e) => return Err(e),
    }
    ctx.market.data.total_options = option_index;

    ctx.option.data.bump = ctx.bumps.option;
    ctx.option.data.name = name;
    ctx.option.data.total_shares = None;
    ctx.option.data.total_score = None;
    ctx.option.data.creator = ctx.creator;

    ctx.share_account.data.bump = ctx.bumps.share_account;
    ctx.share_account.data.owner = ctx.creator;
    ctx.share_account.data.market = ctx.market.key;
    ctx.share_account.data.state_nonce = share_account_nonce;
    ctx.share_account.data.state_nonce_disclosure = 0;
    ctx.share_account.data.encrypted_state = [[0u8; 32]; 2];
    ctx.share_account.data.encrypted_state_disclosure = [[0u8; 32]; 2];
    ctx.share_account.data.revealed_amount = None;
    ctx.share_account.data.revealed_option = None;
    ctx.share_account.data.revealed_score = None;
    ctx.share_account.data.total_incremented = false;
    ctx.share_account.data.staked_at_timestamp = Some(now);
    ctx.share_account.data.unstaked_at_timestamp = None;
    ctx.share_account.data.locked = true;

    let source_vta_key = ctx.source_vta.key;
    let source_vta_nonce = ctx.source_vta.data.state_nonce;
    let market_key = ctx.market.key;
    let market_state_nonce = ctx.market.data.state_nonce;
    let share_account_key = ctx.share_account.key;

    ctx.source_vta.data.locked = true;
    ctx.market.data.locked = true;

    let builder = new_builder();
    let builder = x25519_pubkey(builder, user_pubkey);
    let builder = plaintext_u128(builder, input_nonce);
    let builder = encrypted_u64(builder, amount_ciphertext);
    let builder = x25519_pubkey(builder, authorized_reader_pubkey);
    let builder = plaintext_u128(builder, authorized_reader_nonce);
    let builder = x25519_pubkey(builder, user_pubkey);
    let builder = plaintext_u128(builder, source_vta_nonce);
    let builder = account(builder, source_vta_key, 8, 32 * 1);
    let builder = plaintext_u128(builder, market_state_nonce);
    let builder = account(builder, market_key, 8, 32 * 1);
    let builder = x25519_pubkey(builder, user_pubkey);
    let builder = plaintext_u128(builder, share_account_nonce);
    let builder = plaintext_u64(builder, ctx.central_state.data.min_option_deposit);
    let builder = plaintext_u64(builder, option_index as u64);
    assert(builder_arguments(builder) =~= old(ctx).arguments(
        option_index,
        amount_ciphertext,
        user_pubkey,
        input_nonce,
        authorized_reader_pubkey,
        authorized_reader_nonce,
        share_account_nonce,
    ));
    let args = build(builder);

    let mut callback_accounts: Vec<CallbackAccount> = Vec::new();
    callback_accounts.push(writable(source_vta_key));
    callback_accounts.push(writable(market_key));
    callback_accounts.push(writable(share_account_key));
    assert(callback_accounts@ =~= old(ctx).callback_accounts());
    Ok(queue_computation("add_option_stake", computation_offset, args, callback_accounts))
}

impl AddOptionStakeCallback {
    /// Why the result is not applied, if it is not.
    pub open spec fn failure(output: Result<AddOptionStakeOutput, VerificationFailed>) -> Option<
        Failure,
    > {
        match output {
            Err(_) => Some(Failure::VerificationFailed),
            Ok(res) => if res.error {
                Some(Failure::Declined)
            } else {
                None
            },
        }
    }

    /// The accounts after the callback. The vote token account, the market
    /// and the share account are unlocked whatever the result. A result that is not applied
    /// clears the time of the stake; one that is applied replaces the
    /// balance, the market's remaining shares and both copies of the shares
    /// bought.
    pub open spec fn settled(
        self,
        output: Result<AddOptionStakeOutput, VerificationFailed>,
    ) -> AddOptionStakeCallback {
        let unlocked = Account {
            data: VoteTokenAccount { locked: false, ..self.source_vta.data },
            ..self.source_vta
        };
        if Self::failure(output) is Some {
            AddOptionStakeCallback {
                source_vta: unlocked,
                market: Account {
                    data: OpportunityMarket { locked: false, ..self.market.data },
                    ..self.market
                },
                share_account: Account {
                    data: ShareAccount {
                        staked_at_timestamp: None,
                        locked: false,
                        ..self.share_account.data
                    },
                    ..self.share_account
                },
            }
        } else {
            let res = output->Ok_0;
            AddOptionStakeCallback {
                source_vta: Account {
                    data: VoteTokenAccount {
                        state_nonce: res.new_user_balance.nonce,
                        encrypted_state: res.new_user_balance.ciphertexts,
                        ..unlocked.data
                    },
                    ..unlocked
                },
                market: Account {
                    data: OpportunityMarket {
                        locked: false,
                        state_nonce: res.new_market_shares.nonce,
                        encrypted_available_shares: res.new_market_shares.ciphertexts,
                        ..self.market.data
                    },
                    ..self.market
                },
                share_account: Account {
                    data: ShareAccount {
                        locked: false,
                        state_nonce: res.bought_shares_mxe.nonce,
                        encrypted_state: res.bought_shares_mxe.ciphertexts,
                        state_nonce_disclosure: res.bought_shares_shared.nonce,
                        encrypted_state_disclosure: res.bought_shares_shared.ciphertexts,
                        ..self.share_account.data
                    },
                    ..self.share_account
                },
            }
        }
    }

    /// What the callback reports.
    pub open spec fn outcome(
        self,
        unix_timestamp: i64,
        output: Result<AddOptionStakeOutput, VerificationFailed>,
    ) -> CallbackOutcome<StakedEvent, StakedError> {
        let user = self.source_vta.data.owner;
        match Self::failure(output) {
            Some(failure) => CallbackOutcome::RolledBack(
                failure,
                StakedError { user, timestamp: unix_timestamp },
            ),
            None => {
                let res = output->Ok_0;
                CallbackOutcome::Applied(
                    StakedEvent {
                        user,
                        encrypted_token_account: self.source_vta.key,
                        share_account: self.share_account.key,
                        share_encrypted_state: res.bought_shares_mxe.ciphertexts,
                        share_state_nonce: res.bought_shares_mxe.nonce,
                        share_encrypted_state_disclosure: res.bought_shares_shared.ciphertexts,
                        share_state_disclosure_nonce: res.bought_shares_shared.nonce,
                        encrypted_eta_balance: res.new_user_balance.ciphertexts[0],
                        eta_balance_nonce: res.new_user_balance.nonce,
                        timestamp: unix_timestamp,
                    },
                )
            },
        }
    }
}

/// Settles the stake on a new option.
///
/// The vote token account, the market and the share account are unlocked
/// before the result is looked at. A result that did not verify, or one whose error flag is set,
/// clears the time of the stake and is reported as a failure; the
/// transaction still succeeds and the option stays, without a stake. Otherwise the new balance,
/// the market's remaining shares and the shares bought are written.
pub fn add_market_option_callback(
    ctx: &mut AddOptionStakeCallback,
    unix_timestamp: i64,
    output: Result<AddOptionStakeOutput, VerificationFailed>,
) -> (outcome: CallbackOutcome<StakedEvent, StakedError>)
    ensures
        *final(ctx) == old(ctx).settled(output),
        outcome == old(ctx).outcome(unix_timestamp, output),
{
    ctx.source_vta.data.locked = false;
    ctx.market.data.locked = false;
    ctx.share_account.data.locked = false;
    let user = ctx.source_vta.data.owner;

    let res = match output {
        Ok(res) => res,
        Err(_) => {
            ctx.share_account.data.staked_at_timestamp = None;
            return CallbackOutcome::RolledBack(
                Failure::VerificationFailed,
                StakedError { user, timestamp: unix_timestamp },
            );
        },
    };
    if res.error {
        ctx.share_account.data.staked_at_timestamp = None;
        return CallbackOutcome::RolledBack(
            Failure::Declined,
            StakedError { user, timestamp: unix_timestamp },
        );
    }
    let new_user_balance = res.new_user_balance;
    let new_market_shares = res.new_market_shares;
    let bought_shares_mxe = res.bought_shares_mxe;
    let bought_shares_shared = res.bought_shares_shared;

    ctx.source_vta.data.state_nonce = new_user_balance.nonce;
    ctx.source_vta.data.encrypted_state = new_user_balance.ciphertexts;

    ctx.market.data.state_nonce = new_market_shares.nonce;
    ctx.market.data.encrypted_available_shares = new_market_shares.ciphertexts;

    ctx.share_account.data.state_nonce = bought_shares_mxe.nonce;
    ctx.share_account.data.encrypted_state = bought_shares_mxe.ciphertexts;
    ctx.share_account.data.state_nonce_disclosure = bought_shares_shared.nonce;
    ctx.share_account.data.encrypted_state_disclosure = bought_shares_shared.ciphertexts;

    CallbackOutcome::Applied(
        StakedEvent {
            user,
            encrypted_token_account: ctx.source_vta.key,
            share_account: ctx.share_account.key,
            share_encrypted_state: bought_shares_mxe.ciphertexts,
            share_state_nonce: bought_shares_mxe.nonce,
            share_encrypted_state_disclosure: bought_shares_shared.ciphertexts,
            share_state_disclosure_nonce: bought_shares_shared.nonce,
            encrypted_eta_balance: new_user_balance.ciphertexts[0],
            eta_balance_nonce: new_user_balance.nonce,
            timestamp: unix_timestamp,
        },
    )
}

} // verus!
