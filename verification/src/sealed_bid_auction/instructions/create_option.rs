//! Adding an option to a market: [`create_option`] fills it in and queues the
//! computation of its encrypted state, which [`init_option_state_callback`]
//! stores. The option is born locked and is unlocked by that callback.

use vstd::prelude::*;
use crate::arguments::{build, builder_arguments, new_builder, plaintext_u128, Argument};
use crate::computation::{
    queue_computation, writable, zeroed, Account, CallbackAccount, CallbackFailedEvent,
    CallbackOutcome, ComputationRequest, EncryptedOutput, Failure, VerificationFailed,
};
use crate::pubkey::Pubkey;
use crate::sealed_bid_auction::error::ErrorCode;
use crate::sealed_bid_auction::state::{ConvictionMarket, ConvictionOption};

verus! {

/// The accounts of [`create_option`]. The option is new.
#[derive(Debug)]
pub struct CreateOption {
    pub creator: Pubkey,
    pub market: Account<ConvictionMarket>,
    pub option: Account<ConvictionOption>,
    /// The bump seed of the new option.
    pub option_bump: u8,
}

/// The accounts of [`init_option_state_callback`].
#[derive(Debug)]
pub struct InitOptionStateCallback {
    pub option: Account<ConvictionOption>,
}

impl CreateOption {
    /// Why the option is rejected, if it is: the market is full, or the
    /// option is not the next in line.
    pub open spec fn rejection(self, option_index: u16) -> Option<ErrorCode> {
        let market = self.market.data;
        if market.current_options >= market.max_options {
            Some(ErrorCode::MaxOptionsReached)
        } else if option_index != market.current_options + 1 {
            Some(ErrorCode::InvalidOptionIndex)
        } else {
            None
        }
    }

    /// The accounts after an accepted option: the market counts one option
    /// more and the option is filled in, with no state yet, and locked.
    pub open spec fn created(self, option_index: u16, nonce: u128) -> CreateOption {
        CreateOption {
            market: Account {
                data: ConvictionMarket {
                    current_options: option_index as u8,
                    ..self.market.data
                },
                ..self.market
            },
            option: Account {
                data: ConvictionOption {
                    bump: self.option_bump,
                    option_index,
                    market: self.market.key,
                    state_nonce: nonce,
                    encrypted_state: zeroed::<1>(),
                    locked: true,
                },
                ..self.option
            },
            ..self
        }
    }

    /// The one argument of the option's state: the nonce to encrypt it
    /// under.
    pub open spec fn arguments(nonce: u128) -> Seq<Argument> {
        seq![
            Argument::PlaintextU128(nonce),
        ]
    }

    /// The one account the callback may write: the option.
    pub open spec fn callback_accounts(self) -> Seq<CallbackAccount> {
        seq![CallbackAccount { pubkey: self.option.key, is_writable: true }]
    }
}

/// Adds the next option to a market and queues the computation of its
/// encrypted state.
///
/// Accepted while the market has room, for the option that is next in line.
/// The option stays locked until the callback. A rejected option changes
/// nothing.
pub fn create_option(
    ctx: &mut CreateOption,
    computation_offset: u64,
    option_index: u16,
    nonce: u128,
) -> (result: Result<ComputationRequest, ErrorCode>)
    ensures
        match result {
            Ok(request) => {
                &&& old(ctx).rejection(option_index) is None
                &&& *final(ctx) == old(ctx).created(option_index, nonce)
                &&& request.describes(
                    "init_option_state"@,
                    computation_offset,
                    CreateOption::arguments(nonce),
                    old(ctx).callback_accounts(),
                )
            },
            Err(e) => old(ctx).rejection(option_index) == Some(e) && *final(ctx) == *old(ctx),
        },
{
    if ctx.market.data.current_options >= ctx.market.data.max_options {
        return Err(ErrorCode::MaxOptionsReached);
    }
    let next_option: u8 = ctx.market.data.current_options + 1;
    if option_index != next_option as u16 {
        return Err(ErrorCode::InvalidOptionIndex);
    }
    ctx.market.data.current_options = next_option;

    ctx.option.data.bump = ctx.option_bump;
    ctx.option.data.option_index = option_index;
    ctx.option.data.market = ctx.market.key;
    ctx.option.data.state_nonce = nonce;
    ctx.option.data.encrypted_state = [[0u8; 32]; 1];
    ctx.option.data.locked = true;

    let builder = new_builder();
    let builder = plaintext_u128(builder, nonce);
    assert(builder_arguments(builder) =~= CreateOption::arguments(nonce));
    let args = build(builder);

    let mut callback_accounts: Vec<CallbackAccount> = Vec::new();
    callback_accounts.push(writable(ctx.option.key));
    assert(callback_accounts@ =~= old(ctx).callback_accounts());
    Ok(queue_computation("init_option_state", computation_offset, args, callback_accounts))
}

impl InitOptionStateCallback {
    /// The accounts after the callback. The option is unlocked whatever the
    /// result, and given the state of an applied one.
    pub open spec fn settled(
        self,
        output: Result<EncryptedOutput<1>, VerificationFailed>,
    ) -> InitOptionStateCallback {
        let option = ConvictionOption { locked: false, ..self.option.data };
        InitOptionStateCallback {
            option: Account {
                data: match output {
                    Err(_) => option,
                    Ok(o) => ConvictionOption {
                        encrypted_state: o.ciphertexts,
                        state_nonce: o.nonce,
                        ..option
                    },
                },
                ..self.option
            },
        }
    }

    /// What the callback reports.
    pub open spec fn outcome(
        self,
        unix_timestamp: i64,
        output: Result<EncryptedOutput<1>, VerificationFailed>,
    ) -> CallbackOutcome<(), CallbackFailedEvent> {
        match output {
            Err(_) => CallbackOutcome::RolledBack(
                Failure::VerificationFailed,
                CallbackFailedEvent { account: self.option.key, timestamp: unix_timestamp },
            ),
            Ok(_) => CallbackOutcome::Applied(()),
        }
    }
}

/// Settles the creation of an option.
///
/// The option is unlocked before the result is looked at. A result that did
/// not verify is reported as a failure and leaves the option without a
/// state; the transaction still succeeds. Otherwise the state is written.
pub fn init_option_state_callback(
    ctx: &mut InitOptionStateCallback,
    unix_timestamp: i64,
    output: Result<EncryptedOutput<1>, VerificationFailed>,
) -> (outcome: CallbackOutcome<(), CallbackFailedEvent>)
    ensures
        *final(ctx) == old(ctx).settled(output),
        outcome == old(ctx).outcome(unix_timestamp, output),
{
    ctx.option.data.locked = false;
    let o = match output {
        Ok(o) => o,
        Err(_) => {
            return CallbackOutcome::RolledBack(
                Failure::VerificationFailed,
                CallbackFailedEvent { account: ctx.option.key, timestamp: unix_timestamp },
            );
        },
    };
    ctx.option.data.encrypted_state = o.ciphertexts;
    ctx.option.data.state_nonce = o.nonce;
    CallbackOutcome::Applied(())
}

} // verus!
