//! Handing the central state to another authority.

use vstd::prelude::*;
use crate::computation::Account;
use crate::opportunity_market::error::ErrorCode;
use crate::opportunity_market::state::CentralState;
use crate::pubkey::Pubkey;

verus! {

/// The accounts of [`transfer_central_state_authority`].
#[derive(Debug)]
pub struct TransferCentralStateAuthority {
    pub authority: Pubkey,
    pub central_state: Account<CentralState>,
}

/// Makes `new_authority` the authority of the central state. Accepted from
/// the current authority only; anyone else is rejected as unauthorized and
/// changes nothing.
pub fn transfer_central_state_authority(
    ctx: &mut TransferCentralStateAuthority,
    new_authority: Pubkey,
) -> (result: Result<(), ErrorCode>)
    ensures
        match result {
            Ok(_) => {
                &&& old(ctx).central_state.data.authority == old(ctx).authority
                &&& *final(ctx) == (TransferCentralStateAuthority {
                    central_state: Account {
                        data: CentralState {
                            authority: new_authority,
                            ..old(ctx).central_state.data
                        },
                        ..old(ctx).central_state
                    },
                    ..*old(ctx)
                })
            },
            Err(e) => {
                &&& old(ctx).central_state.data.authority != old(ctx).authority
                &&& e == ErrorCode::Unauthorized
                &&& *final(ctx) == *old(ctx)
            },
        },
{
    if ctx.central_state.data.authority != ctx.authority {
        return Err(ErrorCode::Unauthorized);
    }
    ctx.central_state.data.authority = new_authority;
    Ok(())
}

} // verus!
