//! Claiming back a deposit that no callback has credited.

use vstd::prelude::*;
use crate::computation::{Account, TokenTransfer};
use crate::opportunity_market::error::ErrorCode;
use crate::opportunity_market::state::{EncryptedTokenAccount, TokenVault};
use crate::pubkey::Pubkey;

verus! {

/// The accounts of [`claim_pending_deposit`].
#[derive(Debug)]
pub struct ClaimPendingDeposit {
    pub signer: Pubkey,
    pub token_mint: Pubkey,
    pub encrypted_token_account: Account<EncryptedTokenAccount>,
    pub token_vault: Account<TokenVault>,
    /// The vault's token account, from which the deposit is paid back.
    pub token_vault_ata: Pubkey,
    /// The signer's token account, to which it is paid.
    pub signer_token_account: Pubkey,
}

impl ClaimPendingDeposit {
    /// Why the claim is rejected, if it is. A deposit is not claimed back
    /// while a computation on the account is in flight: its callback decides
    /// first.
    pub open spec fn rejection(self) -> Option<ErrorCode> {
        if self.encrypted_token_account.data.owner != self.signer {
            Some(ErrorCode::Unauthorized)
        } else if self.encrypted_token_account.data.token_mint != self.token_mint {
            Some(ErrorCode::InvalidMint)
        } else if self.encrypted_token_account.data.locked {
            Some(ErrorCode::Locked)
        } else {
            None
        }
    }

    /// The payment an accepted claim calls for: the whole pending deposit,
    /// from the vault's token account to the signer's; none if nothing is
    /// pending.
    pub open spec fn refund(self) -> Option<TokenTransfer> {
        let pending = self.encrypted_token_account.data.pending_deposit;
        if pending == 0 {
            None
        } else {
            Some(
                TokenTransfer {
                    from: self.token_vault_ata,
                    to: self.signer_token_account,
                    authority: self.token_vault.key,
                    amount: pending,
                },
            )
        }
    }

    /// The accounts after an accepted claim: nothing is pending any more.
    pub open spec fn claimed(self) -> ClaimPendingDeposit {
        let eta = self.encrypted_token_account;
        ClaimPendingDeposit {
            encrypted_token_account: Account {
                data: EncryptedTokenAccount { pending_deposit: 0, ..eta.data },
                ..eta
            },
            ..self
        }
    }
}

/// Pays a pending deposit back to its owner.
///
/// Accepted when the account is the signer's, in the given mint and not
/// locked. The payment, if any, is left to the caller to carry out. A
/// rejected claim changes nothing.
pub fn claim_pending_deposit(ctx: &mut ClaimPendingDeposit) -> (result: Result<
    Option<TokenTransfer>,
    ErrorCode,
>)
    ensures
        match result {
            Ok(transfer) => {
                &&& old(ctx).rejection() is None
                &&& transfer == old(ctx).refund()
                &&& *final(ctx) == old(ctx).claimed()
            },
            Err(e) => old(ctx).rejection() == Some(e) && *final(ctx) == *old(ctx),
        },
{
    if ctx.encrypted_token_account.data.owner != ctx.signer {
        return Err(ErrorCode::Unauthorized);
    }
    if ctx.encrypted_token_account.data.token_mint != ctx.token_mint {
        return Err(ErrorCode::InvalidMint);
    }
    if ctx.encrypted_token_account.data.locked {
        return Err(ErrorCode::Locked);
    }
    if ctx.encrypted_token_account.data.pending_deposit == 0 {
        return Ok(None);
    }
    let transfer = TokenTransfer {
        from: ctx.token_vault_ata,
        to: ctx.signer_token_account,
        authority: ctx.token_vault.key,
        amount: ctx.encrypted_token_account.data.pending_deposit,
    };
    ctx.encrypted_token_account.data.pending_deposit = 0;
    Ok(Some(transfer))
}

} // verus!
