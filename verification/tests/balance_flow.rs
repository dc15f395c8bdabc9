use confidential_markets::circuits::{
    unwrap_encrypted_tokens as deduct_circuit, wrap_encrypted_tokens as credit_circuit, Enc,
    EncryptedTokenBalance, Shared,
};
use confidential_markets::computation::{
    Account, CallbackFailedEvent, CallbackOutcome, EncryptedOutput, Failure, TokenTransfer,
    VerificationFailed,
};
use confidential_markets::opportunity_market::error::ErrorCode;
use confidential_markets::opportunity_market::events::{
    EncryptedTokenWrappedEvent, EncryptedTokensUnwrappedError,
};
use confidential_markets::opportunity_market::instructions::claim_pending_deposit::{
    claim_pending_deposit, ClaimPendingDeposit,
};
use confidential_markets::opportunity_market::instructions::unwrap_encrypted_tokens::{
    unwrap_encrypted_tokens, unwrap_encrypted_tokens_callback, UnwrapEncryptedTokens,
    UnwrapEncryptedTokensCallback, UnwrapEncryptedTokensOutput,
};
use confidential_markets::opportunity_market::instructions::wrap_encrypted_tokens::{
    wrap_encrypted_tokens, wrap_encrypted_tokens_callback, WrapEncryptedTokens,
    WrapEncryptedTokensCallback,
};
use confidential_markets::opportunity_market::state::{EncryptedTokenAccount, TokenVault};
use confidential_markets::pubkey::Pubkey;

fn key(n: u8) -> Pubkey {
    Pubkey::new_from_array([n; 32])
}

/// A stand-in for the cluster's encryption: the amount in the first eight
/// bytes, the nonce in the next sixteen.
fn seal(amount: u64, nonce: u128) -> EncryptedOutput<1> {
    let mut bytes = [0u8; 32];
    bytes[..8].copy_from_slice(&amount.to_le_bytes());
    bytes[8..24].copy_from_slice(&nonce.to_le_bytes());
    EncryptedOutput { nonce, ciphertexts: [bytes] }
}

fn open(account: &EncryptedTokenAccount) -> u64 {
    let mut amount = [0u8; 8];
    amount.copy_from_slice(&account.encrypted_state[0][..8]);
    u64::from_le_bytes(amount)
}

fn eta_holding(amount: u64) -> EncryptedTokenAccount {
    let sealed = seal(amount, 41);
    EncryptedTokenAccount {
        encrypted_state: sealed.ciphertexts,
        bump: 253,
        index: 0,
        owner: key(1),
        state_nonce: sealed.nonce,
        token_mint: key(20),
        user_pubkey: [7u8; 32],
        locked: false,
        pending_deposit: 0,
        is_initialized: true,
        rent_payer: None,
    }
}

fn vault() -> Account<TokenVault> {
    Account { key: key(40), data: TokenVault { bump: 1, fund_manager: key(41) } }
}

fn unwrap_ctx(account: EncryptedTokenAccount) -> UnwrapEncryptedTokens {
    UnwrapEncryptedTokens {
        signer: key(1),
        token_mint: key(20),
        encrypted_token_account: Account { key: key(31), data: account },
        token_vault: vault(),
        token_vault_ata: key(42),
        user_token_account: key(43),
        token_program: key(44),
    }
}

fn unwrap_callback_ctx(after: UnwrapEncryptedTokens) -> UnwrapEncryptedTokensCallback {
    UnwrapEncryptedTokensCallback {
        encrypted_token_account: after.encrypted_token_account,
        user_token_account: after.user_token_account,
        token_vault: after.token_vault,
        token_vault_ata: after.token_vault_ata,
        token_mint: after.token_mint,
    }
}

/// What the cluster does with a queued withdrawal.
fn run_deduct(account: &EncryptedTokenAccount, amount: u64, new_nonce: u128) -> UnwrapEncryptedTokensOutput {
    let balance = Enc {
        owner: Shared { public_key: account.user_pubkey },
        data: EncryptedTokenBalance { amount: open(account) },
    };
    let (error, amount_sold, new_balance) = deduct_circuit(balance, amount);
    UnwrapEncryptedTokensOutput {
        error,
        amount_sold,
        new_balance: seal(new_balance.data.amount, new_nonce),
    }
}

fn wrap_ctx(account: EncryptedTokenAccount) -> WrapEncryptedTokens {
    WrapEncryptedTokens {
        signer: key(1),
        token_mint: key(20),
        encrypted_token_account: Account { key: key(31), data: account },
        signer_token_account: key(45),
        token_vault: vault(),
        token_vault_ata: key(42),
    }
}

#[test]
fn withdrawal_over_the_balance_leaves_it_at_100_and_unlocked() {
    let mut ctx = unwrap_ctx(eta_holding(100));
    unwrap_encrypted_tokens(&mut ctx, 7, 150).unwrap();
    assert!(ctx.encrypted_token_account.data.locked);

    let output = run_deduct(&ctx.encrypted_token_account.data, 150, 42);
    assert!(output.error);
    assert_eq!(output.amount_sold, 0);
    assert_eq!(output.new_balance, seal(100, 42));

    let mut cb = unwrap_callback_ctx(ctx);
    let outcome = unwrap_encrypted_tokens_callback(&mut cb, 2_000, Ok(output));
    assert!(!cb.encrypted_token_account.data.locked);
    assert_eq!(open(&cb.encrypted_token_account.data), 100);
    assert_eq!(cb.encrypted_token_account.data, eta_holding(100));
    match outcome {
        CallbackOutcome::RolledBack(failure, event) => {
            assert_eq!(failure, Failure::Declined);
            assert_eq!(event, EncryptedTokensUnwrappedError { user: key(1), timestamp: 2_000 });
        },
        CallbackOutcome::Applied(_) => panic!("a declined withdrawal was applied"),
    }
}

#[test]
fn withdrawal_within_the_balance_leaves_60_and_pays_40() {
    let mut ctx = unwrap_ctx(eta_holding(100));
    unwrap_encrypted_tokens(&mut ctx, 7, 40).unwrap();

    let output = run_deduct(&ctx.encrypted_token_account.data, 40, 42);
    assert!(!output.error);
    assert_eq!(output.amount_sold, 40);

    let mut cb = unwrap_callback_ctx(ctx);
    let outcome = unwrap_encrypted_tokens_callback(&mut cb, 2_000, Ok(output));
    assert!(!cb.encrypted_token_account.data.locked);
    assert_eq!(open(&cb.encrypted_token_account.data), 60);
    assert_eq!(cb.encrypted_token_account.data.state_nonce, 42);
    match outcome {
        CallbackOutcome::Applied(unwrapped) => {
            assert_eq!(
                unwrapped.transfer,
                Some(TokenTransfer { from: key(42), to: key(43), authority: key(40), amount: 40 })
            );
            assert_eq!(unwrapped.event.amount_withdrawn, 40);
            assert_eq!(unwrapped.event.user, key(1));
            assert_eq!(unwrapped.event.encrypted_token_account, key(31));
            assert_eq!(unwrapped.event.nonce, 42);
            assert_eq!(unwrapped.event.encrypted_new_balance, seal(60, 42).ciphertexts[0]);
            assert_eq!(unwrapped.event.timestamp, 2_000);
        },
        CallbackOutcome::RolledBack(..) => panic!("the withdrawal was not applied"),
    }
}

#[test]
fn withdrawal_of_nothing_pays_nothing() {
    let mut ctx = unwrap_ctx(eta_holding(100));
    unwrap_encrypted_tokens(&mut ctx, 7, 0).unwrap();
    let output = run_deduct(&ctx.encrypted_token_account.data, 0, 42);
    let mut cb = unwrap_callback_ctx(ctx);
    match unwrap_encrypted_tokens_callback(&mut cb, 2_000, Ok(output)) {
        CallbackOutcome::Applied(unwrapped) => assert_eq!(unwrapped.transfer, None),
        CallbackOutcome::RolledBack(..) => panic!("the withdrawal was not applied"),
    }
    assert_eq!(open(&cb.encrypted_token_account.data), 100);
    assert!(!cb.encrypted_token_account.data.locked);
}

#[test]
fn unverified_withdrawal_leaves_the_balance_and_unlocks() {
    let mut ctx = unwrap_ctx(eta_holding(100));
    unwrap_encrypted_tokens(&mut ctx, 7, 40).unwrap();
    let mut cb = unwrap_callback_ctx(ctx);
    let outcome = unwrap_encrypted_tokens_callback(&mut cb, 2_000, Err(VerificationFailed {}));
    assert_eq!(cb.encrypted_token_account.data, eta_holding(100));
    match outcome {
        CallbackOutcome::RolledBack(failure, _) => assert_eq!(failure, Failure::VerificationFailed),
        CallbackOutcome::Applied(_) => panic!("an unverified withdrawal was applied"),
    }
}

#[test]
fn withdrawal_is_rejected_for_the_wrong_signer_mint_or_a_lock() {
    let mut ctx = unwrap_ctx(eta_holding(100));
    ctx.signer = key(2);
    assert_eq!(unwrap_encrypted_tokens(&mut ctx, 7, 40).err(), Some(ErrorCode::Unauthorized));
    let mut ctx = unwrap_ctx(eta_holding(100));
    ctx.token_mint = key(21);
    assert_eq!(unwrap_encrypted_tokens(&mut ctx, 7, 40).err(), Some(ErrorCode::InvalidMint));
    let mut ctx = unwrap_ctx(eta_holding(100));
    ctx.encrypted_token_account.data.locked = true;
    assert_eq!(unwrap_encrypted_tokens(&mut ctx, 7, 40).err(), Some(ErrorCode::Locked));
    assert_eq!(ctx.encrypted_token_account.data.state_nonce, 41);
}

#[test]
fn second_withdrawal_in_flight_is_rejected() {
    let mut ctx = unwrap_ctx(eta_holding(100));
    unwrap_encrypted_tokens(&mut ctx, 7, 40).unwrap();
    assert_eq!(unwrap_encrypted_tokens(&mut ctx, 8, 10).err(), Some(ErrorCode::Locked));
    let mut deposit = wrap_ctx(ctx.encrypted_token_account.data);
    assert_eq!(wrap_encrypted_tokens(&mut deposit, 9, 10).err(), Some(ErrorCode::Locked));
}

#[test]
fn deposit_is_pending_until_the_callback_credits_it() {
    let mut ctx = wrap_ctx(eta_holding(100));
    let submission = wrap_encrypted_tokens(&mut ctx, 7, 25).unwrap();
    assert_eq!(
        submission.transfer,
        TokenTransfer { from: key(45), to: key(42), authority: key(1), amount: 25 }
    );
    assert!(ctx.encrypted_token_account.data.locked);
    assert_eq!(ctx.encrypted_token_account.data.pending_deposit, 25);

    let stored = ctx.encrypted_token_account.data;
    let credited = credit_circuit(
        Enc {
            owner: Shared { public_key: stored.user_pubkey },
            data: EncryptedTokenBalance { amount: open(&stored) },
        },
        stored.state_nonce != 0,
        25,
    );
    let mut cb = WrapEncryptedTokensCallback { encrypted_token_account: ctx.encrypted_token_account };
    let outcome = wrap_encrypted_tokens_callback(&mut cb, 2_000, Ok(seal(credited.data.amount, 42)));
    assert!(!cb.encrypted_token_account.data.locked);
    assert_eq!(cb.encrypted_token_account.data.pending_deposit, 0);
    assert_eq!(open(&cb.encrypted_token_account.data), 125);
    match outcome {
        CallbackOutcome::Applied(event) => assert_eq!(
            event,
            EncryptedTokenWrappedEvent {
                encrypted_token_account: key(31),
                user: key(1),
                deposit_amount: 25,
                encrypted_new_balance: seal(125, 42).ciphertexts[0],
                nonce: 42,
                timestamp: 2_000,
            }
        ),
        CallbackOutcome::RolledBack(..) => panic!("the deposit was not credited"),
    }
}

#[test]
fn unverified_deposit_stays_pending_and_can_be_claimed_back() {
    let mut ctx = wrap_ctx(eta_holding(100));
    wrap_encrypted_tokens(&mut ctx, 7, 25).unwrap();
    let mut cb = WrapEncryptedTokensCallback { encrypted_token_account: ctx.encrypted_token_account };
    let outcome = wrap_encrypted_tokens_callback(&mut cb, 2_000, Err(VerificationFailed {}));
    assert!(!cb.encrypted_token_account.data.locked);
    assert_eq!(cb.encrypted_token_account.data.pending_deposit, 25);
    assert_eq!(open(&cb.encrypted_token_account.data), 100);
    match outcome {
        CallbackOutcome::RolledBack(failure, event) => {
            assert_eq!(failure, Failure::VerificationFailed);
            assert_eq!(event, CallbackFailedEvent { account: key(31), timestamp: 2_000 });
        },
        CallbackOutcome::Applied(_) => panic!("an unverified deposit was credited"),
    }

    let mut claim = ClaimPendingDeposit {
        signer: key(1),
        token_mint: key(20),
        encrypted_token_account: cb.encrypted_token_account,
        token_vault: vault(),
        token_vault_ata: key(42),
        signer_token_account: key(45),
    };
    assert_eq!(
        claim_pending_deposit(&mut claim),
        Ok(Some(TokenTransfer { from: key(42), to: key(45), authority: key(40), amount: 25 }))
    );
    assert_eq!(claim.encrypted_token_account.data, eta_holding(100));
}

#[test]
fn deposit_cannot_be_claimed_back_while_in_flight() {
    let mut ctx = wrap_ctx(eta_holding(100));
    wrap_encrypted_tokens(&mut ctx, 7, 25).unwrap();
    let in_flight = ctx.encrypted_token_account.data;
    let mut claim = ClaimPendingDeposit {
        signer: key(1),
        token_mint: key(20),
        encrypted_token_account: ctx.encrypted_token_account,
        token_vault: vault(),
        token_vault_ata: key(42),
        signer_token_account: key(45),
    };
    assert_eq!(claim_pending_deposit(&mut claim), Err(ErrorCode::Locked));
    assert_eq!(claim.encrypted_token_account.data, in_flight);
}

#[test]
fn result_without_a_pending_deposit_is_not_credited() {
    let mut cb = WrapEncryptedTokensCallback {
        encrypted_token_account: Account { key: key(31), data: eta_holding(100) },
    };
    let outcome = wrap_encrypted_tokens_callback(&mut cb, 2_000, Ok(seal(125, 42)));
    assert_eq!(cb.encrypted_token_account.data, eta_holding(100));
    match outcome {
        CallbackOutcome::RolledBack(failure, _) => assert_eq!(failure, Failure::Declined),
        CallbackOutcome::Applied(_) => panic!("a deposit that is not pending was credited"),
    }
}

#[test]
fn deposit_of_nothing_does_not_leave_the_account_locked() {
    let mut ctx = wrap_ctx(eta_holding(100));
    wrap_encrypted_tokens(&mut ctx, 7, 0).unwrap();
    assert!(ctx.encrypted_token_account.data.locked);
    let mut cb = WrapEncryptedTokensCallback { encrypted_token_account: ctx.encrypted_token_account };
    wrap_encrypted_tokens_callback(&mut cb, 2_000, Ok(seal(100, 42)));
    assert!(!cb.encrypted_token_account.data.locked);
    assert_eq!(cb.encrypted_token_account.data, eta_holding(100));
}

#[test]
fn deposit_that_overflows_the_pending_amount_is_rejected() {
    let mut account = eta_holding(100);
    account.pending_deposit = u64::MAX - 3;
    let mut ctx = wrap_ctx(account);
    assert_eq!(wrap_encrypted_tokens(&mut ctx, 7, 4).err(), Some(ErrorCode::Overflow));
    assert_eq!(ctx.encrypted_token_account.data, account);
    assert!(wrap_encrypted_tokens(&mut ctx, 7, 3).is_ok());
    assert_eq!(ctx.encrypted_token_account.data.pending_deposit, u64::MAX);
}

#[test]
fn deposit_is_rejected_for_the_wrong_signer_or_mint() {
    let mut ctx = wrap_ctx(eta_holding(100));
    ctx.signer = key(2);
    assert_eq!(wrap_encrypted_tokens(&mut ctx, 7, 4).err(), Some(ErrorCode::Unauthorized));
    let mut ctx = wrap_ctx(eta_holding(100));
    ctx.token_mint = key(21);
    assert_eq!(wrap_encrypted_tokens(&mut ctx, 7, 4).err(), Some(ErrorCode::InvalidMint));
}

#[test]
fn claim_with_nothing_pending_changes_nothing() {
    let account = eta_holding(100);
    let mut claim = ClaimPendingDeposit {
        signer: key(1),
        token_mint: key(20),
        encrypted_token_account: Account { key: key(31), data: account },
        token_vault: vault(),
        token_vault_ata: key(42),
        signer_token_account: key(45),
    };
    assert_eq!(claim_pending_deposit(&mut claim), Ok(None));
    assert_eq!(claim.encrypted_token_account.data, account);
}

#[test]
fn claim_is_rejected_for_the_wrong_signer_or_mint() {
    let mut account = eta_holding(100);
    account.pending_deposit = 5;
    let mut claim = ClaimPendingDeposit {
        signer: key(2),
        token_mint: key(20),
        encrypted_token_account: Account { key: key(31), data: account },
        token_vault: vault(),
        token_vault_ata: key(42),
        signer_token_account: key(45),
    };
    assert_eq!(claim_pending_deposit(&mut claim), Err(ErrorCode::Unauthorized));
    claim.signer = key(1);
    claim.token_mint = key(21);
    assert_eq!(claim_pending_deposit(&mut claim), Err(ErrorCode::InvalidMint));
    assert_eq!(claim.encrypted_token_account.data, account);
}
