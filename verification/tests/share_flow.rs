use confidential_markets::computation::{
    Account, CallbackOutcome, EncryptedOutput, Failure, VerificationFailed,
};
use confidential_markets::opportunity_market::error::ErrorCode;
use confidential_markets::opportunity_market::events::{
    EphemeralAccountClosedError, SharesRevealedError, SharesRevealedEvent, SharesUnstakedError,
    SharesUnstakedEvent,
};
use confidential_markets::opportunity_market::instructions::close_ephemeral_encrypted_token_account::{
    close_ephemeral_encrypted_token_account, close_ephemeral_encrypted_token_account_callback,
    CloseEphemeralEncryptedTokenAccount, CloseEphemeralEncryptedTokenAccountCallback,
};
use confidential_markets::opportunity_market::instructions::reveal_shares::{
    reveal_shares, reveal_shares_callback, RevealShares, RevealSharesCallback, RevealSharesOutput,
};
use confidential_markets::opportunity_market::instructions::unstake_early::{
    unstake_early, unstake_early_callback, UnstakeEarly, UnstakeEarlyCallback,
};
use confidential_markets::opportunity_market::state::{
    EncryptedTokenAccount, OpportunityMarket, ShareAccount,
};
use confidential_markets::pubkey::Pubkey;

fn key(n: u8) -> Pubkey {
    Pubkey::new_from_array([n; 32])
}

fn market() -> OpportunityMarket {
    OpportunityMarket {
        encrypted_available_shares: [[0u8; 32]; 1],
        bump: 254,
        creator: key(10),
        index: 0,
        total_options: 2,
        open_timestamp: Some(1_000),
        time_to_stake: 500,
        time_to_reveal: 300,
        selected_option: None,
        state_nonce: 77,
        max_shares: 1_000,
        reward_amount: 50,
        market_authority: None,
        mint: key(20),
        earliness_cutoff_seconds: 0,
        authorized_reader_pubkey: [9u8; 32],
        locked: false,
    }
}

fn eta(index: u64) -> EncryptedTokenAccount {
    EncryptedTokenAccount {
        encrypted_state: [[5u8; 32]; 1],
        bump: 253,
        index,
        owner: key(1),
        state_nonce: 41,
        token_mint: key(20),
        user_pubkey: [7u8; 32],
        locked: false,
        pending_deposit: 0,
        is_initialized: true,
        rent_payer: if index == 0 { None } else { Some(key(50)) },
    }
}

fn staked_share() -> ShareAccount {
    ShareAccount {
        encrypted_state: [[6u8; 32]; 2],
        state_nonce: 43,
        bump: 252,
        owner: key(1),
        market: key(30),
        encrypted_state_disclosure: [[8u8; 32]; 2],
        state_nonce_disclosure: 44,
        staked_at_timestamp: Some(1_100),
        unstaked_at_timestamp: None,
        revealed_amount: None,
        revealed_option: None,
        revealed_score: None,
        total_incremented: false,
        locked: false,
    }
}

fn reveal_ctx() -> RevealShares {
    RevealShares {
        signer: key(2),
        owner: key(1),
        market: Account { key: key(30), data: market() },
        share_account: Account { key: key(32), data: staked_share() },
        user_eta: Account { key: key(31), data: eta(0) },
    }
}

fn reveal_output() -> RevealSharesOutput {
    RevealSharesOutput {
        revealed_amount: 40,
        revealed_option: 2,
        new_user_balance: EncryptedOutput { nonce: 501, ciphertexts: [[61u8; 32]; 1] },
    }
}

fn unstake_ctx() -> UnstakeEarly {
    UnstakeEarly {
        signer: key(1),
        market: Account { key: key(30), data: market() },
        user_eta: Account { key: key(31), data: eta(0) },
        share_account: Account { key: key(32), data: staked_share() },
    }
}

fn close_ctx() -> CloseEphemeralEncryptedTokenAccount {
    CloseEphemeralEncryptedTokenAccount {
        signer: key(1),
        token_mint: key(20),
        regular_encrypted_token_account: Account { key: key(31), data: eta(0) },
        ephemeral_encrypted_token_account: Account { key: key(33), data: eta(5) },
        rent_recipient: key(50),
    }
}

#[test]
fn reveal_is_open_to_anyone_once_staking_is_over() {
    let mut ctx = reveal_ctx();
    assert!(reveal_shares(&mut ctx, 1_500, 7, 0).is_ok());
    assert!(ctx.share_account.data.locked);
    assert!(ctx.user_eta.data.locked);
}

#[test]
fn reveal_before_staking_ends_is_rejected() {
    let mut ctx = reveal_ctx();
    assert_eq!(reveal_shares(&mut ctx, 1_499, 7, 0).err(), Some(ErrorCode::MarketNotResolved));
    assert!(!ctx.share_account.data.locked);
    assert!(!ctx.user_eta.data.locked);
}

#[test]
fn reveal_is_rejected_by_each_precondition() {
    let mut ctx = reveal_ctx();
    ctx.share_account.data.revealed_amount = Some(1);
    assert_eq!(reveal_shares(&mut ctx, 1_500, 7, 0).err(), Some(ErrorCode::AlreadyRevealed));
    let mut ctx = reveal_ctx();
    ctx.share_account.data.locked = true;
    assert_eq!(reveal_shares(&mut ctx, 1_500, 7, 0).err(), Some(ErrorCode::Locked));
    let mut ctx = reveal_ctx();
    ctx.user_eta.data.locked = true;
    assert_eq!(reveal_shares(&mut ctx, 1_500, 7, 0).err(), Some(ErrorCode::Locked));
    let mut ctx = reveal_ctx();
    ctx.owner = key(3);
    assert_eq!(reveal_shares(&mut ctx, 1_500, 7, 0).err(), Some(ErrorCode::Unauthorized));
    let mut ctx = reveal_ctx();
    ctx.market.data.mint = key(21);
    assert_eq!(reveal_shares(&mut ctx, 1_500, 7, 0).err(), Some(ErrorCode::InvalidMint));
    let mut ctx = reveal_ctx();
    ctx.market.data.open_timestamp = None;
    assert_eq!(reveal_shares(&mut ctx, 1_500, 7, 0).err(), Some(ErrorCode::MarketNotOpen));
}

#[test]
fn reveal_start_saturates_instead_of_overflowing() {
    let mut ctx = reveal_ctx();
    ctx.market.data.open_timestamp = Some(u64::MAX - 1);
    ctx.market.data.time_to_stake = 10;
    assert_eq!(reveal_shares(&mut ctx, i64::MAX, 7, 0).err(), Some(ErrorCode::MarketNotResolved));
    let mut ctx = reveal_ctx();
    ctx.market.data.open_timestamp = Some(u64::MAX - 1);
    ctx.market.data.time_to_stake = 10;
    assert!(reveal_shares(&mut ctx, -1, 7, 0).is_ok());
}

#[test]
fn reveal_of_an_unstaked_share_leaves_the_balance_unlocked_and_untouched() {
    let mut ctx = reveal_ctx();
    ctx.share_account.data.unstaked_at_timestamp = Some(1_200);
    reveal_shares(&mut ctx, 1_500, 7, 0).unwrap();
    assert!(ctx.share_account.data.locked);
    assert!(!ctx.user_eta.data.locked);

    let mut cb = RevealSharesCallback { share_account: ctx.share_account, user_eta: ctx.user_eta };
    reveal_shares_callback(&mut cb, 1_600, Ok(reveal_output()));
    assert!(!cb.share_account.data.locked);
    assert_eq!(cb.share_account.data.revealed_amount, Some(40));
    assert_eq!(cb.share_account.data.revealed_option, Some(2));
    assert_eq!(cb.user_eta.data, eta(0));
}

#[test]
fn applied_reveal_records_the_stake_and_credits_the_balance() {
    let mut ctx = reveal_ctx();
    ctx.user_eta.data.is_initialized = false;
    reveal_shares(&mut ctx, 1_500, 7, 0).unwrap();
    let mut cb = RevealSharesCallback { share_account: ctx.share_account, user_eta: ctx.user_eta };
    let outcome = reveal_shares_callback(&mut cb, 1_600, Ok(reveal_output()));
    assert!(!cb.share_account.data.locked);
    assert!(!cb.user_eta.data.locked);
    assert_eq!(cb.share_account.data.revealed_amount, Some(40));
    assert_eq!(cb.share_account.data.revealed_option, Some(2));
    assert_eq!(cb.user_eta.data.state_nonce, 501);
    assert_eq!(cb.user_eta.data.encrypted_state, [[61u8; 32]; 1]);
    assert!(cb.user_eta.data.is_initialized);
    match outcome {
        CallbackOutcome::Applied(event) => assert_eq!(
            event,
            SharesRevealedEvent {
                user: key(1),
                encrypted_token_account: key(31),
                share_account: key(32),
                shares_amount: 40,
                selected_option: 2,
                encrypted_new_balance: [61u8; 32],
                nonce: 501,
                timestamp: 1_600,
            }
        ),
        CallbackOutcome::RolledBack(..) => panic!("the reveal was not applied"),
    }
}

#[test]
fn unverified_reveal_unlocks_and_changes_nothing_else() {
    let mut ctx = reveal_ctx();
    reveal_shares(&mut ctx, 1_500, 7, 0).unwrap();
    let mut cb = RevealSharesCallback { share_account: ctx.share_account, user_eta: ctx.user_eta };
    let outcome = reveal_shares_callback(&mut cb, 1_600, Err(VerificationFailed {}));
    assert_eq!(cb.share_account.data, staked_share());
    assert_eq!(cb.user_eta.data, eta(0));
    match outcome {
        CallbackOutcome::RolledBack(failure, event) => {
            assert_eq!(failure, Failure::VerificationFailed);
            assert_eq!(event, SharesRevealedError { user: key(1), timestamp: 1_600 });
        },
        CallbackOutcome::Applied(_) => panic!("an unverified reveal was applied"),
    }
}

#[test]
fn second_reveal_in_flight_is_rejected() {
    let mut ctx = reveal_ctx();
    reveal_shares(&mut ctx, 1_500, 7, 0).unwrap();
    assert_eq!(reveal_shares(&mut ctx, 1_501, 8, 0).err(), Some(ErrorCode::Locked));
}

#[test]
fn early_withdrawal_locks_both_accounts() {
    let mut ctx = unstake_ctx();
    assert!(unstake_early(&mut ctx, 1_200, 7, 0).is_ok());
    assert!(ctx.user_eta.data.locked);
    assert!(ctx.share_account.data.locked);
    assert_eq!(unstake_early(&mut ctx, 1_201, 8, 0).err(), Some(ErrorCode::Locked));
}

#[test]
fn early_withdrawal_is_rejected_by_each_precondition() {
    let mut ctx = unstake_ctx();
    ctx.market.data.open_timestamp = None;
    assert_eq!(unstake_early(&mut ctx, 1_200, 7, 0).err(), Some(ErrorCode::MarketNotOpen));
    let mut ctx = unstake_ctx();
    ctx.market.data.selected_option = Some(1);
    assert_eq!(unstake_early(&mut ctx, 1_200, 7, 0).err(), Some(ErrorCode::WinnerAlreadySelected));
    let mut ctx = unstake_ctx();
    ctx.signer = key(2);
    assert_eq!(unstake_early(&mut ctx, 1_200, 7, 0).err(), Some(ErrorCode::Unauthorized));
    let mut ctx = unstake_ctx();
    ctx.user_eta.data.locked = true;
    assert_eq!(unstake_early(&mut ctx, 1_200, 7, 0).err(), Some(ErrorCode::Locked));
    let mut ctx = unstake_ctx();
    ctx.share_account.data.unstaked_at_timestamp = Some(1_150);
    assert_eq!(unstake_early(&mut ctx, 1_200, 7, 0).err(), Some(ErrorCode::AlreadyUnstaked));
    let mut ctx = unstake_ctx();
    ctx.share_account.data.locked = true;
    assert_eq!(unstake_early(&mut ctx, 1_200, 7, 0).err(), Some(ErrorCode::Locked));
    let mut ctx = unstake_ctx();
    ctx.user_eta.data.token_mint = key(21);
    assert_eq!(unstake_early(&mut ctx, 1_200, 7, 0).err(), Some(ErrorCode::InvalidMint));
    let mut ctx = unstake_ctx();
    assert_eq!(unstake_early(&mut ctx, 1_501, 7, 0).err(), Some(ErrorCode::StakingNotActive));
    assert_eq!(ctx.user_eta.data, eta(0));
    assert_eq!(ctx.share_account.data, staked_share());
}

#[test]
fn applied_early_withdrawal_marks_the_stake_and_refunds() {
    let mut ctx = unstake_ctx();
    unstake_early(&mut ctx, 1_200, 7, 0).unwrap();
    let mut cb = UnstakeEarlyCallback { user_eta: ctx.user_eta, share_account: ctx.share_account };
    let refunded = EncryptedOutput { nonce: 601, ciphertexts: [[71u8; 32]; 1] };
    let outcome = unstake_early_callback(&mut cb, 1_250, Ok(refunded));
    assert!(!cb.user_eta.data.locked);
    assert!(!cb.share_account.data.locked);
    assert_eq!(cb.share_account.data.unstaked_at_timestamp, Some(1_250));
    assert_eq!(cb.user_eta.data.state_nonce, 601);
    assert_eq!(cb.user_eta.data.encrypted_state, [[71u8; 32]; 1]);
    match outcome {
        CallbackOutcome::Applied(event) => assert_eq!(
            event,
            SharesUnstakedEvent {
                user: key(1),
                market: key(30),
                encrypted_token_account: key(31),
                share_account: key(32),
                encrypted_new_balance: [71u8; 32],
                nonce: 601,
                timestamp: 1_250,
            }
        ),
        CallbackOutcome::RolledBack(..) => panic!("the withdrawal was not applied"),
    }
}

#[test]
fn unverified_early_withdrawal_unlocks_and_changes_nothing_else() {
    let mut ctx = unstake_ctx();
    unstake_early(&mut ctx, 1_200, 7, 0).unwrap();
    let mut cb = UnstakeEarlyCallback { user_eta: ctx.user_eta, share_account: ctx.share_account };
    let outcome = unstake_early_callback(&mut cb, 1_250, Err(VerificationFailed {}));
    assert_eq!(cb.user_eta.data, eta(0));
    assert_eq!(cb.share_account.data, staked_share());
    match outcome {
        CallbackOutcome::RolledBack(failure, event) => {
            assert_eq!(failure, Failure::VerificationFailed);
            assert_eq!(event, SharesUnstakedError { user: key(1), timestamp: 1_250 });
        },
        CallbackOutcome::Applied(_) => panic!("an unverified withdrawal was applied"),
    }
}

#[test]
fn closing_an_ephemeral_account_locks_both_balances() {
    let mut ctx = close_ctx();
    assert!(close_ephemeral_encrypted_token_account(&mut ctx, 7, 5).is_ok());
    assert!(ctx.regular_encrypted_token_account.data.locked);
    assert!(ctx.ephemeral_encrypted_token_account.data.locked);
    assert_eq!(
        close_ephemeral_encrypted_token_account(&mut ctx, 8, 5).err(),
        Some(ErrorCode::Locked)
    );
}

#[test]
fn closing_is_rejected_by_each_precondition() {
    let mut ctx = close_ctx();
    ctx.regular_encrypted_token_account.data.owner = key(2);
    assert_eq!(
        close_ephemeral_encrypted_token_account(&mut ctx, 7, 5).err(),
        Some(ErrorCode::Unauthorized)
    );
    let mut ctx = close_ctx();
    ctx.regular_encrypted_token_account.data.token_mint = key(21);
    assert_eq!(
        close_ephemeral_encrypted_token_account(&mut ctx, 7, 5).err(),
        Some(ErrorCode::InvalidMint)
    );
    let mut ctx = close_ctx();
    ctx.regular_encrypted_token_account.data.locked = true;
    assert_eq!(
        close_ephemeral_encrypted_token_account(&mut ctx, 7, 5).err(),
        Some(ErrorCode::Locked)
    );
    let mut ctx = close_ctx();
    ctx.ephemeral_encrypted_token_account.data.owner = key(2);
    assert_eq!(
        close_ephemeral_encrypted_token_account(&mut ctx, 7, 5).err(),
        Some(ErrorCode::Unauthorized)
    );
    let mut ctx = close_ctx();
    ctx.ephemeral_encrypted_token_account.data.token_mint = key(21);
    assert_eq!(
        close_ephemeral_encrypted_token_account(&mut ctx, 7, 5).err(),
        Some(ErrorCode::InvalidMint)
    );
    let mut ctx = close_ctx();
    ctx.ephemeral_encrypted_token_account.data.index = 0;
    assert_eq!(
        close_ephemeral_encrypted_token_account(&mut ctx, 7, 5).err(),
        Some(ErrorCode::InvalidAccountState)
    );
    let mut ctx = close_ctx();
    ctx.ephemeral_encrypted_token_account.data.locked = true;
    assert_eq!(
        close_ephemeral_encrypted_token_account(&mut ctx, 7, 5).err(),
        Some(ErrorCode::Locked)
    );
    let mut ctx = close_ctx();
    ctx.rent_recipient = key(51);
    assert_eq!(
        close_ephemeral_encrypted_token_account(&mut ctx, 7, 5).err(),
        Some(ErrorCode::Unauthorized)
    );
    let mut ctx = close_ctx();
    ctx.ephemeral_encrypted_token_account.data.rent_payer = None;
    assert_eq!(
        close_ephemeral_encrypted_token_account(&mut ctx, 7, 5).err(),
        Some(ErrorCode::Unauthorized)
    );
}

fn close_callback_ctx(
    after: CloseEphemeralEncryptedTokenAccount,
    ephemeral_lamports: u64,
    rent_recipient_lamports: u64,
) -> CloseEphemeralEncryptedTokenAccountCallback {
    CloseEphemeralEncryptedTokenAccountCallback {
        regular_encrypted_token_account: after.regular_encrypted_token_account,
        ephemeral_encrypted_token_account: after.ephemeral_encrypted_token_account,
        ephemeral_lamports,
        rent_recipient: after.rent_recipient,
        rent_recipient_lamports,
    }
}

#[test]
fn applied_closing_folds_the_balance_and_returns_the_rent() {
    let mut ctx = close_ctx();
    close_ephemeral_encrypted_token_account(&mut ctx, 7, 5).unwrap();
    let mut cb = close_callback_ctx(ctx, 2_000, 10_000);
    let folded = EncryptedOutput { nonce: 701, ciphertexts: [[81u8; 32]; 1] };
    let outcome =
        close_ephemeral_encrypted_token_account_callback(&mut cb, 3_000, Ok(folded)).unwrap();
    assert!(!cb.regular_encrypted_token_account.data.locked);
    assert!(!cb.ephemeral_encrypted_token_account.data.locked);
    assert_eq!(cb.regular_encrypted_token_account.data.state_nonce, 701);
    assert_eq!(cb.regular_encrypted_token_account.data.encrypted_state, [[81u8; 32]; 1]);
    assert_eq!(cb.ephemeral_lamports, 0);
    assert_eq!(cb.rent_recipient_lamports, 12_000);
    match outcome {
        CallbackOutcome::Applied(event) => {
            assert_eq!(event.user, key(1));
            assert_eq!(event.encrypted_token_account, key(31));
            assert_eq!(event.encrypted_new_balance, [81u8; 32]);
            assert_eq!(event.nonce, 701);
            assert_eq!(event.timestamp, 3_000);
        },
        CallbackOutcome::RolledBack(..) => panic!("the closing was not applied"),
    }
}

#[test]
fn unverified_closing_unlocks_both_and_moves_no_lamport() {
    let mut ctx = close_ctx();
    close_ephemeral_encrypted_token_account(&mut ctx, 7, 5).unwrap();
    let mut cb = close_callback_ctx(ctx, 2_000, u64::MAX);
    let outcome =
        close_ephemeral_encrypted_token_account_callback(&mut cb, 3_000, Err(VerificationFailed {}))
            .unwrap();
    assert_eq!(cb.regular_encrypted_token_account.data, eta(0));
    assert_eq!(cb.ephemeral_encrypted_token_account.data, eta(5));
    assert_eq!(cb.ephemeral_lamports, 2_000);
    assert_eq!(cb.rent_recipient_lamports, u64::MAX);
    match outcome {
        CallbackOutcome::RolledBack(failure, event) => {
            assert_eq!(failure, Failure::VerificationFailed);
            assert_eq!(event, EphemeralAccountClosedError { user: key(1), timestamp: 3_000 });
        },
        CallbackOutcome::Applied(_) => panic!("an unverified closing was applied"),
    }
}

#[test]
fn closing_whose_rent_does_not_fit_is_rejected() {
    let mut ctx = close_ctx();
    close_ephemeral_encrypted_token_account(&mut ctx, 7, 5).unwrap();
    let mut cb = close_callback_ctx(ctx, 2_000, u64::MAX - 1_999);
    let folded = EncryptedOutput { nonce: 701, ciphertexts: [[81u8; 32]; 1] };
    assert_eq!(
        close_ephemeral_encrypted_token_account_callback(&mut cb, 3_000, Ok(folded)).err(),
        Some(ErrorCode::Overflow)
    );
    assert!(cb.regular_encrypted_token_account.data.locked);
    assert_eq!(cb.regular_encrypted_token_account.data.state_nonce, 41);
    assert_eq!(cb.ephemeral_lamports, 2_000);
}
