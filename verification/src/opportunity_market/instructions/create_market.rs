//! Creating a market: [`create_market`] fills in the market and queues the
//! computation of its encrypted share supply, which
//! [`init_market_shares_callback`] stores. The market is born locked and is
//! unlocked by that callback.

use vstd::prelude::*;
use crate::arguments::{
    build, builder_arguments, new_builder, plaintext_u128, plaintext_u64, Argument,
};
use crate::computation::{
    queue_computation, writable, Account, CallbackAccount, CallbackFailedEvent, CallbackOutcome,
    ComputationRequest, EncryptedOutput, Failure, VerificationFailed,
};
use crate::opportunity_market::events::MarketCreatedEvent;
use crate::opportunity_market::state::OpportunityMarket;
use crate::pubkey::Pubkey;

verus! {

/// The accounts of [`create_market`]. The market is new.
#[derive(Debug)]
pub struct CreateMarket {
    pub creator: Pubkey,
    pub market: Account<OpportunityMarket>,
    /// The bump seed of the new market.
    pub market_bump: u8,
}

/// The accounts of [`init_market_shares_callback`].
#[derive(Debug)]
pub struct InitMarketSharesCallback {
    pub market: Account<OpportunityMarket>,
}

/// What creating a market leaves to do and to report.
#[derive(Debug)]
pub struct MarketCreation {
    pub request: ComputationRequest,
    pub event: MarketCreatedEvent,
}

impl CreateMarket {
    /// The accounts after the instruction: the market is filled in, with no
    /// option, no winner and no share supply yet, and locked.
    pub open spec fn created(
        self,
        market_index: u64,
        max_shares: u64,
        reward_lamports: u64,
        time_to_stake: u64,
        time_to_reveal: u64,
        market_authority: Option<Pubkey>,
    ) -> CreateMarket {
        CreateMarket {
            market: Account {
                data: OpportunityMarket {
                    bump: self.market_bump,
                    creator: self.creator,
                    index: market_index,
                    total_options: 0,
                    max_shares,
                    time_to_stake,
                    time_to_reveal,
                    selected_option: None,
                    state_nonce: 0,
                    reward_amount: reward_lamports,
                    market_authority,
                    locked: true,
                    ..self.market.data
                },
                ..self.market
            },
            ..self
        }
    }

    /// The arguments of the share supply: the nonce to encrypt it under and
    /// the number of shares.
    pub open spec fn arguments(nonce: u128, max_shares: u64) -> Seq<Argument> {
        seq![
            Argument::PlaintextU128(nonce),
            Argument::PlaintextU64(max_shares),
        ]
    }

    /// The one account the callback may write: the market.
    pub open spec fn callback_accounts(self) -> Seq<CallbackAccount> {
        seq![CallbackAccount { pubkey: self.market.key, is_writable: true }]
    }
}

/// Fills in a new market and queues the computation of its encrypted share
/// supply. The market stays locked until the callback.
pub fn create_market(
    ctx: &mut CreateMarket,
    unix_timestamp: i64,
    market_index: u64,
    computation_offset: u64,
    max_shares: u64,
    reward_lamports: u64,
    time_to_stake: u64,
    time_to_reveal: u64,
    nonce: u128,
    market_authority: Option<Pubkey>,
) -> (creation: MarketCreation)
    ensures
        *final(ctx) == old(ctx).created(
            market_index,
            max_shares,
            reward_lamports,
            time_to_stake,
            time_to_reveal,
            market_authority,
        ),
        creation.request.describes(
            "init_market_shares"@,
            computation_offset,
            CreateMarket::arguments(nonce, max_shares),
            old(ctx).callback_accounts(),
        ),
        creation.event == (MarketCreatedEvent {
            market: old(ctx).market.key,
            creator: old(ctx).creator,
            index: market_index,
            timestamp: unix_timestamp,
        }),
{
    ctx.market.data.bump = ctx.market_bump;
    ctx.market.data.creator = ctx.creator;
    ctx.market.data.index = market_index;
    ctx.market.data.total_options = 0;
    ctx.market.data.max_shares = max_shares;
    ctx.market.data.time_to_stake = time_to_stake;
    ctx.market.data.time_to_reveal = time_to_reveal;
    ctx.market.data.selected_option = None;
    ctx.market.data.state_nonce = 0;
    ctx.market.data.reward_amount = reward_lamports;
    ctx.market.data.market_authority = market_authority;
    ctx.market.data.locked = true;

    let builder = new_builder();
    let builder = plaintext_u128(builder, nonce);
    let builder = plaintext_u64(builder, max_shares);
    assert(builder_arguments(builder) =~= CreateMarket::arguments(nonce, max_shares));
    let args = build(builder);

    let mut callback_accounts: Vec<CallbackAccount> = Vec::new();
    callback_accounts.push(writable(ctx.market.key));
    assert(callback_accounts@ =~= old(ctx).callback_accounts());
    MarketCreation {
        request: queue_computation(
            "init_market_shares",
            computation_offset,
            args,
            callback_accounts,
        ),
        event: MarketCreatedEvent {
            market: ctx.market.key,
            creator: ctx.creator,
            index: market_index,
            timestamp: unix_timestamp,
        },
    }
}

impl InitMarketSharesCallback {
    /// Why the result is not applied, if it is not: the circuit cannot
    /// decline, so only a result that does not verify.
    pub open spec fn failure(output: Result<EncryptedOutput<1>, VerificationFailed>) -> Option<
        Failure,
    > {
        match output {
            Err(_) => Some(Failure::VerificationFailed),
            Ok(_) => None,
        }
    }

    /// The accounts after the callback. The market is unlocked whatever the
    /// result, and given the share supply of an applied one.
    pub open spec fn settled(
        self,
        output: Result<EncryptedOutput<1>, VerificationFailed>,
    ) -> InitMarketSharesCallback {
        let market = OpportunityMarket { locked: false, ..self.market.data };
        InitMarketSharesCallback {
            market: Account {
                data: match output {
                    Err(_) => market,
                    Ok(o) => OpportunityMarket {
                        state_nonce: o.nonce,
                        encrypted_available_shares: o.ciphertexts,
                        ..market
                    },
                },
                ..self.market
            },
        }
    }

    /// What the callback reports.
    pub open spec fn outcome(
        self,
        unix_timestamp: i64,
        output: Result<EncryptedOutput<1>, VerificationFailed>,
    ) -> CallbackOutcome<(), CallbackFailedEvent> {
        match output {
            Err(_) => CallbackOutcome::RolledBack(
                Failure::VerificationFailed,
                CallbackFailedEvent { account: self.market.key, timestamp: unix_timestamp },
            ),
            Ok(_) => CallbackOutcome::Applied(()),
        }
    }
}

/// Settles the creation of a market.
///
/// The market is unlocked before the result is looked at. A result that did
/// not verify is reported as a failure and leaves the market without a share
/// supply; the transaction still succeeds. Otherwise the share supply is
/// written.
pub fn init_market_shares_callback(
    ctx: &mut InitMarketSharesCallback,
    unix_timestamp: i64,
    output: Result<EncryptedOutput<1>, VerificationFailed>,
) -> (outcome: CallbackOutcome<(), CallbackFailedEvent>)
    ensures
        *final(ctx) == old(ctx).settled(output),
        outcome == old(ctx).outcome(unix_timestamp, output),
{
    ctx.market.data.locked = false;
    let o = match output {
        Ok(o) => o,
        Err(_) => {
            return CallbackOutcome::RolledBack(
                Failure::VerificationFailed,
                CallbackFailedEvent { account: ctx.market.key, timestamp: unix_timestamp },
            );
        },
    };
    ctx.market.data.state_nonce = o.nonce;
    ctx.market.data.encrypted_available_shares = o.ciphertexts;
    CallbackOutcome::Applied(())
}

} // verus!
