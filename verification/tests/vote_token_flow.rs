use arcium_anchor::prelude::ArgumentRef;
use confidential_markets::computation::{
    Account, CallbackAccount, CallbackFailedEvent, CallbackOutcome, EncryptedOutput, Failure,
    TokenTransfer, VerificationFailed,
};
use confidential_markets::opportunity_market::error::ErrorCode;
use confidential_markets::opportunity_market::events::{MarketCreatedEvent, StakedError};
use confidential_markets::opportunity_market::instructions::add_market_option::{
    add_market_option, add_market_option_callback, AddMarketOption, AddMarketOptionBumps,
    AddOptionStakeCallback, AddOptionStakeOutput,
};
use confidential_markets::opportunity_market::instructions::claim_vote_tokens::{
    claim_vote_tokens, claim_vote_tokens_callback, ClaimVoteTokens, ClaimVoteTokensCallback,
    ClaimVoteTokensOutput,
};
use confidential_markets::opportunity_market::instructions::create_market::{
    create_market, init_market_shares_callback, CreateMarket, InitMarketSharesCallback,
};
use confidential_markets::opportunity_market::instructions::init_vote_token_account::{
    init_vote_token_account, init_vote_token_account_callback, InitVoteTokenAccount,
    InitVoteTokenAccountCallback,
};
use confidential_markets::opportunity_market::instructions::mint_vote_tokens::{
    buy_vote_tokens_callback, mint_vote_tokens, BuyVoteTokensCallback, BuyVoteTokensOutput,
    MintVoteTokens,
};
use confidential_markets::opportunity_market::state::{
    CentralState, OpportunityMarket, OpportunityMarketOption, ShareAccount, VoteTokenAccount,
};
use confidential_markets::pubkey::Pubkey;

fn key(n: u8) -> Pubkey {
    Pubkey::new_from_array([n; 32])
}

fn market() -> OpportunityMarket {
    OpportunityMarket {
        encrypted_available_shares: [[4u8; 32]; 1],
        bump: 254,
        creator: key(10),
        index: 0,
        total_options: 2,
        open_timestamp: Some(1_000),
        time_to_stake: 500,
        time_to_reveal: 300,
        selected_option: None,
        state_nonce: 77,
        max_shares: 1_000,
        reward_amount: 50,
        market_authority: None,
        mint: key(20),
        earliness_cutoff_seconds: 0,
        authorized_reader_pubkey: [9u8; 32],
        locked: false,
    }
}

fn vta() -> VoteTokenAccount {
    VoteTokenAccount {
        encrypted_state: [[5u8; 32]; 1],
        bump: 253,
        owner: key(1),
        state_nonce: 41,
        token_mint: key(20),
        locked: false,
        pending_deposit: 0,
    }
}

fn blank_share() -> ShareAccount {
    ShareAccount {
        encrypted_state: [[6u8; 32]; 2],
        state_nonce: 1,
        bump: 0,
        owner: key(0),
        market: key(0),
        encrypted_state_disclosure: [[8u8; 32]; 2],
        state_nonce_disclosure: 2,
        staked_at_timestamp: None,
        unstaked_at_timestamp: Some(3),
        revealed_amount: Some(4),
        revealed_option: Some(5),
        revealed_score: Some(6),
        total_incremented: true,
        locked: false,
    }
}

fn blank_option() -> OpportunityMarketOption {
    OpportunityMarketOption {
        bump: 0,
        index: 0,
        creator: key(0),
        name: String::new(),
        total_shares: Some(1),
        total_score: Some(1),
        initialized: false,
    }
}

fn option_ctx() -> AddMarketOption {
    AddMarketOption {
        creator: key(1),
        market: Account { key: key(30), data: market() },
        central_state: Account {
            key: key(60),
            data: CentralState {
                bump: 248,
                earliness_cutoff_seconds: 3_600,
                authority: key(61),
                min_option_deposit: 10,
            },
        },
        option: Account { key: key(34), data: blank_option() },
        source_vta: Account { key: key(37), data: vta() },
        share_account: Account { key: key(32), data: blank_share() },
        bumps: AddMarketOptionBumps { option: 249, share_account: 245 },
    }
}

fn submit_option(ctx: &mut AddMarketOption, now: i64, index: u16) -> Result<(), ErrorCode> {
    add_market_option(
        ctx,
        now,
        99,
        index,
        0,
        String::from("maybe"),
        [11u8; 32],
        [7u8; 32],
        1001,
        [9u8; 32],
        1002,
        1003,
    )
    .map(|_| ())
}

fn option_output(error: bool) -> AddOptionStakeOutput {
    AddOptionStakeOutput {
        error,
        new_user_balance: EncryptedOutput { nonce: 501, ciphertexts: [[61u8; 32]; 1] },
        new_market_shares: EncryptedOutput { nonce: 504, ciphertexts: [[64u8; 32]; 1] },
        bought_shares_mxe: EncryptedOutput { nonce: 502, ciphertexts: [[62u8; 32]; 2] },
        bought_shares_shared: EncryptedOutput { nonce: 503, ciphertexts: [[63u8; 32]; 2] },
    }
}

fn option_callback(after: AddMarketOption) -> AddOptionStakeCallback {
    AddOptionStakeCallback {
        source_vta: after.source_vta,
        market: after.market,
        share_account: after.share_account,
    }
}

#[test]
fn accepted_option_fills_accounts_and_locks_the_vote_tokens() {
    let mut ctx = option_ctx();
    let request = add_market_option(
        &mut ctx,
        1_200,
        99,
        3,
        0,
        String::from("maybe"),
        [11u8; 32],
        [7u8; 32],
        1001,
        [9u8; 32],
        1002,
        1003,
    )
    .unwrap();
    assert_eq!(ctx.market.data.total_options, 3);
    assert!(ctx.market.data.locked);
    assert!(ctx.source_vta.data.locked);
    assert_eq!(ctx.option.data.bump, 249);
    assert_eq!(ctx.option.data.name, "maybe");
    assert_eq!(ctx.option.data.total_shares, None);
    assert_eq!(ctx.option.data.total_score, None);
    assert_eq!(ctx.option.data.creator, key(1));
    let share = ctx.share_account.data;
    assert_eq!(share.bump, 245);
    assert_eq!(share.owner, key(1));
    assert_eq!(share.market, key(30));
    assert_eq!(share.state_nonce, 1003);
    assert_eq!(share.state_nonce_disclosure, 0);
    assert_eq!(share.encrypted_state, [[0u8; 32]; 2]);
    assert_eq!(share.encrypted_state_disclosure, [[0u8; 32]; 2]);
    assert_eq!(share.revealed_amount, None);
    assert_eq!(share.revealed_option, None);
    assert_eq!(share.revealed_score, None);
    assert!(!share.total_incremented);
    assert_eq!(share.staked_at_timestamp, Some(1_200));
    assert_eq!(share.unstaked_at_timestamp, None);
    assert!(share.locked);

    assert_eq!(request.comp_def_offset, 183547127);
    let args = &request.args;
    assert_eq!(args.args.len(), 14);
    assert!(matches!(args.args[2], ArgumentRef::EncryptedU64(1)));
    assert!(matches!(args.args[7], ArgumentRef::Account(0)));
    assert!(matches!(args.args[8], ArgumentRef::PlaintextU128(3)));
    assert!(matches!(args.args[9], ArgumentRef::Account(1)));
    assert!(matches!(args.args[12], ArgumentRef::PlaintextU64(0)));
    assert!(matches!(args.args[13], ArgumentRef::PlaintextU64(1)));
    assert_eq!(args.plaintext_numbers, vec![10u64, 3]);
    assert_eq!(args.values_128_bit, vec![1001u128, 1002, 41, 77, 1003]);
    assert_eq!(args.byte_arrays, vec![[7u8; 32], [11u8; 32], [9u8; 32], [7u8; 32], [7u8; 32]]);
    assert_eq!(args.accounts[0].pubkey.to_bytes(), [37u8; 32]);
    assert_eq!(args.accounts[1].pubkey.to_bytes(), [30u8; 32]);
    assert_eq!(
        request.callback_accounts,
        vec![
            CallbackAccount { pubkey: key(37), is_writable: true },
            CallbackAccount { pubkey: key(30), is_writable: true },
            CallbackAccount { pubkey: key(32), is_writable: true },
        ]
    );
}

#[test]
fn option_is_rejected_by_each_precondition() {
    let mut ctx = option_ctx();
    ctx.market.data.selected_option = Some(1);
    assert_eq!(submit_option(&mut ctx, 1_200, 3), Err(ErrorCode::WinnerAlreadySelected));
    let mut ctx = option_ctx();
    ctx.market.data.open_timestamp = None;
    assert_eq!(submit_option(&mut ctx, 1_200, 3), Err(ErrorCode::MarketNotOpen));
    let mut ctx = option_ctx();
    ctx.market.data.locked = true;
    assert_eq!(submit_option(&mut ctx, 1_200, 3), Err(ErrorCode::Locked));
    let mut ctx = option_ctx();
    ctx.creator = key(2);
    assert_eq!(submit_option(&mut ctx, 1_200, 3), Err(ErrorCode::Unauthorized));
    let mut ctx = option_ctx();
    ctx.source_vta.data.token_mint = key(21);
    assert_eq!(submit_option(&mut ctx, 1_200, 3), Err(ErrorCode::InvalidMint));
    let mut ctx = option_ctx();
    ctx.source_vta.data.locked = true;
    assert_eq!(submit_option(&mut ctx, 1_200, 3), Err(ErrorCode::Locked));
    let mut ctx = option_ctx();
    ctx.market.data.total_options = u16::MAX;
    assert_eq!(submit_option(&mut ctx, 1_200, 0), Err(ErrorCode::Overflow));
    let mut ctx = option_ctx();
    assert_eq!(submit_option(&mut ctx, 1_200, 2), Err(ErrorCode::InvalidOptionIndex));
    assert_eq!(submit_option(&mut ctx, 1_200, 4), Err(ErrorCode::InvalidOptionIndex));
    assert_eq!(submit_option(&mut ctx, 1_501, 3), Err(ErrorCode::StakingNotActive));
    assert_eq!(ctx.market.data, market());
    assert_eq!(ctx.source_vta.data, vta());
    assert_eq!(ctx.share_account.data, blank_share());
    assert_eq!(ctx.option.data, blank_option());
}

#[test]
fn applied_option_stake_writes_balance_market_and_shares() {
    let mut ctx = option_ctx();
    submit_option(&mut ctx, 1_200, 3).unwrap();
    let mut cb = option_callback(ctx);
    let outcome = add_market_option_callback(&mut cb, 1_260, Ok(option_output(false)));
    assert!(!cb.source_vta.data.locked);
    assert!(!cb.market.data.locked);
    assert_eq!(cb.source_vta.data.state_nonce, 501);
    assert_eq!(cb.source_vta.data.encrypted_state, [[61u8; 32]; 1]);
    assert_eq!(cb.market.data.state_nonce, 504);
    assert_eq!(cb.market.data.encrypted_available_shares, [[64u8; 32]; 1]);
    assert_eq!(cb.share_account.data.state_nonce, 502);
    assert_eq!(cb.share_account.data.encrypted_state, [[62u8; 32]; 2]);
    assert_eq!(cb.share_account.data.state_nonce_disclosure, 503);
    assert_eq!(cb.share_account.data.encrypted_state_disclosure, [[63u8; 32]; 2]);
    assert_eq!(cb.share_account.data.staked_at_timestamp, Some(1_200));
    assert!(!cb.share_account.data.locked);
    match outcome {
        CallbackOutcome::Applied(event) => {
            assert_eq!(event.user, key(1));
            assert_eq!(event.encrypted_token_account, key(37));
            assert_eq!(event.share_account, key(32));
            assert_eq!(event.share_state_disclosure_nonce, 503);
            assert_eq!(event.timestamp, 1_260);
        },
        CallbackOutcome::RolledBack(..) => panic!("the stake was not applied"),
    }
}

#[test]
fn failed_option_stake_unlocks_and_clears_the_time_of_stake() {
    for (output, failure) in [
        (Ok(option_output(true)), Failure::Declined),
        (Err(VerificationFailed {}), Failure::VerificationFailed),
    ] {
        let mut ctx = option_ctx();
        submit_option(&mut ctx, 1_200, 3).unwrap();
        let mut cb = option_callback(ctx);
        let outcome = add_market_option_callback(&mut cb, 1_260, output);
        assert_eq!(cb.source_vta.data, vta());
        assert_eq!(cb.share_account.data.staked_at_timestamp, None);
        assert!(!cb.share_account.data.locked);
        assert_eq!(cb.share_account.data.state_nonce, 1003);
        assert_eq!(cb.market.data.total_options, 3);
        assert_eq!(cb.market.data.state_nonce, 77);
        assert!(!cb.market.data.locked);
        match outcome {
            CallbackOutcome::RolledBack(got, event) => {
                assert_eq!(got, failure);
                assert_eq!(event, StakedError { user: key(1), timestamp: 1_260 });
            },
            CallbackOutcome::Applied(_) => panic!("a failed stake was applied"),
        }
    }
}

fn mint_ctx() -> MintVoteTokens {
    MintVoteTokens {
        signer: key(1),
        token_mint: key(20),
        vote_token_account: Account { key: key(37), data: vta() },
        signer_token_account: key(45),
        vote_token_ata: key(38),
    }
}

#[test]
fn purchase_of_vote_tokens_is_pending_until_credited() {
    let mut ctx = mint_ctx();
    let submission = mint_vote_tokens(&mut ctx, [7u8; 32], 5, 30).unwrap();
    assert_eq!(
        submission.transfer,
        TokenTransfer { from: key(45), to: key(38), authority: key(1), amount: 30 }
    );
    assert_eq!(submission.request.comp_def_offset, 3600457026);
    assert_eq!(submission.request.args.plaintext_numbers, vec![30u64]);
    assert!(ctx.vote_token_account.data.locked);
    assert_eq!(ctx.vote_token_account.data.pending_deposit, 30);
    assert_eq!(mint_vote_tokens(&mut ctx, [7u8; 32], 6, 1).err(), Some(ErrorCode::Locked));

    let mut cb = BuyVoteTokensCallback { vote_token_account: ctx.vote_token_account };
    let output = BuyVoteTokensOutput {
        amount_bought: 30,
        new_balance: EncryptedOutput { nonce: 501, ciphertexts: [[61u8; 32]; 1] },
    };
    match buy_vote_tokens_callback(&mut cb, 2_000, Ok(output)) {
        CallbackOutcome::Applied(amount) => assert_eq!(amount, 30),
        CallbackOutcome::RolledBack(..) => panic!("the purchase was not applied"),
    }
    assert!(!cb.vote_token_account.data.locked);
    assert_eq!(cb.vote_token_account.data.pending_deposit, 0);
    assert_eq!(cb.vote_token_account.data.state_nonce, 501);
    assert_eq!(cb.vote_token_account.data.encrypted_state, [[61u8; 32]; 1]);
}

#[test]
fn purchase_of_vote_tokens_that_is_not_applied_keeps_the_deposit() {
    let mut ctx = mint_ctx();
    mint_vote_tokens(&mut ctx, [7u8; 32], 5, 30).unwrap();
    let mut cb = BuyVoteTokensCallback { vote_token_account: ctx.vote_token_account };
    match buy_vote_tokens_callback(&mut cb, 2_000, Err(VerificationFailed {})) {
        CallbackOutcome::RolledBack(failure, event) => {
            assert_eq!(failure, Failure::VerificationFailed);
            assert_eq!(event, CallbackFailedEvent { account: key(37), timestamp: 2_000 });
        },
        CallbackOutcome::Applied(_) => panic!("an unverified purchase was applied"),
    }
    assert!(!cb.vote_token_account.data.locked);
    assert_eq!(cb.vote_token_account.data.pending_deposit, 30);
    assert_eq!(cb.vote_token_account.data.state_nonce, 41);

    let too_much = BuyVoteTokensOutput {
        amount_bought: 31,
        new_balance: EncryptedOutput { nonce: 501, ciphertexts: [[61u8; 32]; 1] },
    };
    match buy_vote_tokens_callback(&mut cb, 2_000, Ok(too_much)) {
        CallbackOutcome::RolledBack(failure, _) => assert_eq!(failure, Failure::Declined),
        CallbackOutcome::Applied(_) => panic!("more than the deposit was credited"),
    }
    assert_eq!(cb.vote_token_account.data.pending_deposit, 30);
    assert_eq!(cb.vote_token_account.data.state_nonce, 41);
}

#[test]
fn purchase_of_vote_tokens_that_overflows_is_rejected() {
    let mut ctx = mint_ctx();
    ctx.vote_token_account.data.pending_deposit = u64::MAX;
    assert_eq!(mint_vote_tokens(&mut ctx, [7u8; 32], 5, 1).err(), Some(ErrorCode::Overflow));
    assert!(!ctx.vote_token_account.data.locked);
}

fn claim_ctx() -> ClaimVoteTokens {
    ClaimVoteTokens {
        signer: key(1),
        token_mint: key(20),
        vote_token_account: Account { key: key(37), data: vta() },
        vote_token_ata: key(38),
        user_token_account: key(43),
        token_program: key(44),
    }
}

fn claim_callback(after: ClaimVoteTokens) -> ClaimVoteTokensCallback {
    ClaimVoteTokensCallback {
        vote_token_account: after.vote_token_account,
        user_token_account: after.user_token_account,
        vote_token_ata: after.vote_token_ata,
        token_mint: after.token_mint,
    }
}

#[test]
fn sale_of_vote_tokens_pays_out_of_the_accounts_own_tokens() {
    let mut ctx = claim_ctx();
    let request = claim_vote_tokens(&mut ctx, 5, [7u8; 32], 12).unwrap();
    assert_eq!(request.comp_def_offset, 323395968);
    assert_eq!(request.callback_accounts.len(), 5);
    assert!(ctx.vote_token_account.data.locked);
    assert_eq!(claim_vote_tokens(&mut ctx, 6, [7u8; 32], 1).err(), Some(ErrorCode::Locked));

    let mut cb = claim_callback(ctx);
    let output = ClaimVoteTokensOutput {
        error: false,
        amount_sold: 12,
        new_balance: EncryptedOutput { nonce: 501, ciphertexts: [[61u8; 32]; 1] },
    };
    match claim_vote_tokens_callback(&mut cb, 2_000, Ok(output)) {
        CallbackOutcome::Applied(transfer) => assert_eq!(
            transfer,
            Some(TokenTransfer { from: key(38), to: key(43), authority: key(37), amount: 12 })
        ),
        CallbackOutcome::RolledBack(..) => panic!("the sale was not applied"),
    }
    assert!(!cb.vote_token_account.data.locked);
    assert_eq!(cb.vote_token_account.data.state_nonce, 501);
}

#[test]
fn failed_sale_of_vote_tokens_pays_nothing_and_unlocks() {
    for (output, failure) in [
        (
            Ok(ClaimVoteTokensOutput {
                error: true,
                amount_sold: 0,
                new_balance: EncryptedOutput { nonce: 501, ciphertexts: [[61u8; 32]; 1] },
            }),
            Failure::Declined,
        ),
        (Err(VerificationFailed {}), Failure::VerificationFailed),
    ] {
        let mut ctx = claim_ctx();
        claim_vote_tokens(&mut ctx, 5, [7u8; 32], 12).unwrap();
        let mut cb = claim_callback(ctx);
        match claim_vote_tokens_callback(&mut cb, 2_000, output) {
            CallbackOutcome::RolledBack(got, _) => assert_eq!(got, failure),
            CallbackOutcome::Applied(_) => panic!("a failed sale was applied"),
        }
        assert_eq!(cb.vote_token_account.data, vta());
    }
}

#[test]
fn new_vote_token_account_is_locked_until_its_callback() {
    let mut blank = vta();
    blank.locked = false;
    blank.pending_deposit = 9;
    blank.owner = key(0);
    let mut ctx = InitVoteTokenAccount {
        signer: key(1),
        token_mint: key(20),
        vote_token_account: Account { key: key(37), data: blank },
        vote_token_account_bump: 243,
    };
    let request = init_vote_token_account(&mut ctx, 5, [7u8; 32], 1234);
    assert_eq!(request.comp_def_offset, 95572641);
    assert_eq!(request.args.values_128_bit, vec![1234u128]);
    assert_eq!(request.args.byte_arrays, vec![[7u8; 32]]);
    let created = ctx.vote_token_account.data;
    assert!(created.locked);
    assert_eq!(created.owner, key(1));
    assert_eq!(created.token_mint, key(20));
    assert_eq!(created.state_nonce, 0);
    assert_eq!(created.pending_deposit, 0);
    assert_eq!(created.bump, 243);

    let mut mint = mint_ctx();
    mint.vote_token_account.data = created;
    assert_eq!(mint_vote_tokens(&mut mint, [7u8; 32], 6, 1).err(), Some(ErrorCode::Locked));

    let mut cb = InitVoteTokenAccountCallback { vote_token: Account { key: key(37), data: created } };
    let first = EncryptedOutput { nonce: 501, ciphertexts: [[61u8; 32]; 1] };
    assert!(matches!(
        init_vote_token_account_callback(&mut cb, 2_000, Ok(first)),
        CallbackOutcome::Applied(())
    ));
    assert!(!cb.vote_token.data.locked);
    assert_eq!(cb.vote_token.data.state_nonce, 501);
    assert_eq!(cb.vote_token.data.encrypted_state, [[61u8; 32]; 1]);

    let mut cb = InitVoteTokenAccountCallback { vote_token: Account { key: key(37), data: created } };
    assert!(matches!(
        init_vote_token_account_callback(&mut cb, 2_000, Err(VerificationFailed {})),
        CallbackOutcome::RolledBack(Failure::VerificationFailed, _)
    ));
    assert!(!cb.vote_token.data.locked);
    assert_eq!(cb.vote_token.data.state_nonce, 0);
}

#[test]
fn market_is_created_and_given_its_share_supply() {
    let mut blank = market();
    blank.total_options = 9;
    blank.selected_option = Some(1);
    let mut ctx = CreateMarket {
        creator: key(10),
        market: Account { key: key(30), data: blank },
        market_bump: 242,
    };
    let creation = create_market(&mut ctx, 2_000, 3, 99, 1_000, 50, 500, 300, 77, Some(key(11)));
    assert_eq!(
        creation.event,
        MarketCreatedEvent { market: key(30), creator: key(10), index: 3, timestamp: 2_000 }
    );
    assert_eq!(creation.request.comp_def_offset, 2430327094);
    assert_eq!(creation.request.args.values_128_bit, vec![77u128]);
    assert_eq!(creation.request.args.plaintext_numbers, vec![1_000u64]);
    assert_eq!(
        creation.request.callback_accounts,
        vec![CallbackAccount { pubkey: key(30), is_writable: true }]
    );
    let created = ctx.market.data;
    assert_eq!(created.bump, 242);
    assert_eq!(created.creator, key(10));
    assert_eq!(created.index, 3);
    assert_eq!(created.total_options, 0);
    assert_eq!(created.max_shares, 1_000);
    assert_eq!(created.time_to_stake, 500);
    assert_eq!(created.time_to_reveal, 300);
    assert_eq!(created.selected_option, None);
    assert_eq!(created.state_nonce, 0);
    assert_eq!(created.reward_amount, 50);
    assert_eq!(created.market_authority, Some(key(11)));
    assert!(created.locked);

    let mut option = option_ctx();
    option.market.data = created;
    option.market.data.open_timestamp = Some(1_000);
    assert_eq!(submit_option(&mut option, 1_200, 1), Err(ErrorCode::Locked));

    let mut cb = InitMarketSharesCallback { market: Account { key: key(30), data: created } };
    match init_market_shares_callback(&mut cb, 2_100, Err(VerificationFailed {})) {
        CallbackOutcome::RolledBack(failure, event) => {
            assert_eq!(failure, Failure::VerificationFailed);
            assert_eq!(event, CallbackFailedEvent { account: key(30), timestamp: 2_100 });
        },
        CallbackOutcome::Applied(_) => panic!("an unverified share supply was stored"),
    }
    assert!(!cb.market.data.locked);
    assert_eq!(cb.market.data.state_nonce, 0);

    let mut cb = InitMarketSharesCallback { market: Account { key: key(30), data: created } };
    let supply = EncryptedOutput { nonce: 801, ciphertexts: [[91u8; 32]; 1] };
    assert!(matches!(
        init_market_shares_callback(&mut cb, 2_100, Ok(supply)),
        CallbackOutcome::Applied(())
    ));
    assert!(!cb.market.data.locked);
    assert_eq!(cb.market.data.state_nonce, 801);
    assert_eq!(cb.market.data.encrypted_available_shares, [[91u8; 32]; 1]);
}
