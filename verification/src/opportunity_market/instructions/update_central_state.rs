//! Changing the settings shared by every market.

use vstd::prelude::*;
use crate::computation::Account;
use crate::opportunity_market::error::ErrorCode;
use crate::opportunity_market::state::CentralState;
use crate::pubkey::Pubkey;

verus! {

/// The accounts of [`update_central_state`].
#[derive(Debug)]
pub struct UpdateCentralState {
    pub authority: Pubkey,
    pub central_state: Account<CentralState>,
}

/// Replaces the two settings. Accepted from the authority of the central
/// state only; anyone else is rejected as unauthorized and changes nothing.
pub fn update_central_state(
    ctx: &mut UpdateCentralState,
    earliness_cutoff_seconds: u64,
    min_option_deposit: u64,
) -> (result: Result<(), ErrorCode>)
    ensures
        match result {
            Ok(_) => {
                &&& old(ctx).central_state.data.authority == old(ctx).authority
                &&& *final(ctx) == (UpdateCentralState {
                    central_state: Account {
                        data: CentralState {
                            earliness_cutoff_seconds,
                            min_option_deposit,
                            ..old(ctx).central_state.data
                        },
                        ..old(ctx).central_state
                    },
                    ..*old(ctx)
                })
            },
            Err(e) => {
                &&& old(ctx).central_state.data.authority != old(ctx).authority
                &&& e == ErrorCode::Unauthorized
                &&& *final(ctx) == *old(ctx)
            },
        },
{
    if ctx.central_state.data.authority != ctx.authority {
        return Err(ErrorCode::Unauthorized);
    }
    ctx.central_state.data.earliness_cutoff_seconds = earliness_cutoff_seconds;
    ctx.central_state.data.min_option_deposit = min_option_deposit;
    Ok(())
}

} // verus!
