//! Creating the settings shared by every market.

use vstd::prelude::*;
use crate::computation::Account;
use crate::opportunity_market::state::CentralState;
use crate::pubkey::Pubkey;

verus! {

/// The accounts of [`init_central_state`]. The central state is new.
#[derive(Debug)]
pub struct InitCentralState {
    pub payer: Pubkey,
    pub central_state: Account<CentralState>,
    /// The bump seed of the new account.
    pub central_state_bump: u8,
}

/// Fills in the central state. Its payer becomes its authority.
pub fn init_central_state(
    ctx: &mut InitCentralState,
    earliness_cutoff_seconds: u64,
    min_option_deposit: u64,
)
    ensures
        *final(ctx) == (InitCentralState {
            central_state: Account {
                data: CentralState {
                    bump: old(ctx).central_state_bump,
                    authority: old(ctx).payer,
                    earliness_cutoff_seconds,
                    min_option_deposit,
                },
                ..old(ctx).central_state
            },
            ..*old(ctx)
        }),
{
    ctx.central_state.data.bump = ctx.central_state_bump;
    ctx.central_state.data.authority = ctx.payer;
    ctx.central_state.data.earliness_cutoff_seconds = earliness_cutoff_seconds;
    ctx.central_state.data.min_option_deposit = min_option_deposit;
}

} // verus!
