use arcium_anchor::prelude::ArgumentRef;
use confidential_markets::computation::{Account, CallbackAccount};
use confidential_markets::opportunity_market::instructions::reveal_shares::{
    reveal_shares, RevealShares,
};
use confidential_markets::opportunity_market::instructions::stake::{stake, Stake};
use confidential_markets::opportunity_market::instructions::unwrap_encrypted_tokens::{
    unwrap_encrypted_tokens, UnwrapEncryptedTokens,
};
use confidential_markets::opportunity_market::instructions::wrap_encrypted_tokens::{
    wrap_encrypted_tokens, WrapEncryptedTokens,
};
use confidential_markets::opportunity_market::state::{
    EncryptedTokenAccount, OpportunityMarket, ShareAccount, TokenVault,
};
use confidential_markets::pubkey::Pubkey;

fn key(n: u8) -> Pubkey {
    Pubkey::new_from_array([n; 32])
}

fn market() -> OpportunityMarket {
    OpportunityMarket {
        encrypted_available_shares: [[0u8; 32]; 1],
        bump: 254,
        creator: key(10),
        index: 0,
        total_options: 2,
        open_timestamp: Some(1_000),
        time_to_stake: 500,
        time_to_reveal: 300,
        selected_option: None,
        state_nonce: 77,
        max_shares: 1_000,
        reward_amount: 50,
        market_authority: None,
        mint: key(20),
        earliness_cutoff_seconds: 0,
        authorized_reader_pubkey: [9u8; 32],
        locked: false,
    }
}

fn eta(owner: Pubkey) -> EncryptedTokenAccount {
    EncryptedTokenAccount {
        encrypted_state: [[5u8; 32]; 1],
        bump: 253,
        index: 0,
        owner,
        state_nonce: 41,
        token_mint: key(20),
        user_pubkey: [7u8; 32],
        locked: false,
        pending_deposit: 0,
        is_initialized: true,
        rent_payer: None,
    }
}

fn share(owner: Pubkey) -> ShareAccount {
    ShareAccount {
        encrypted_state: [[0u8; 32]; 2],
        state_nonce: 43,
        bump: 252,
        owner,
        market: key(30),
        encrypted_state_disclosure: [[0u8; 32]; 2],
        state_nonce_disclosure: 0,
        staked_at_timestamp: None,
        unstaked_at_timestamp: None,
        revealed_amount: None,
        revealed_option: None,
        revealed_score: None,
        total_incremented: false,
        locked: false,
    }
}

fn stake_ctx() -> Stake {
    Stake {
        signer: key(1),
        market: Account { key: key(30), data: market() },
        user_eta: Account { key: key(31), data: eta(key(1)) },
        share_account: Account { key: key(32), data: share(key(1)) },
    }
}

#[test]
fn comp_def_offset_is_the_head_of_the_digest_of_the_name() {
    assert_eq!(arcium_anchor::comp_def_offset("wrap_encrypted_tokens"), 3737377398);
    assert_eq!(arcium_anchor::comp_def_offset("reveal_shares"), 2093380811);
}

#[test]
fn stake_request_names_its_circuit_and_offset() {
    let mut ctx = stake_ctx();
    let request = stake(&mut ctx, 1_200, 99, 0, [11u8; 32], [12u8; 32], 1, 2).unwrap();
    assert_eq!(request.computation_offset, 99);
    assert_eq!(request.comp_def_offset, 257834714);
    assert_eq!(request.num_callback_txs, 1);
    assert_eq!(request.cu_price_micro, 0);
}

#[test]
fn stake_request_lists_eleven_arguments_in_order() {
    let mut ctx = stake_ctx();
    let request = stake(&mut ctx, 1_200, 99, 0, [11u8; 32], [12u8; 32], 1001, 1002).unwrap();
    let args = &request.args;
    assert_eq!(args.args.len(), 11);
    assert!(matches!(args.args[0], ArgumentRef::X25519Pubkey(0)));
    assert!(matches!(args.args[1], ArgumentRef::PlaintextU128(0)));
    assert!(matches!(args.args[2], ArgumentRef::EncryptedU64(1)));
    assert!(matches!(args.args[3], ArgumentRef::EncryptedU16(2)));
    assert!(matches!(args.args[4], ArgumentRef::X25519Pubkey(3)));
    assert!(matches!(args.args[5], ArgumentRef::PlaintextU128(1)));
    assert!(matches!(args.args[6], ArgumentRef::X25519Pubkey(4)));
    assert!(matches!(args.args[7], ArgumentRef::PlaintextU128(2)));
    assert!(matches!(args.args[8], ArgumentRef::Account(0)));
    assert!(matches!(args.args[9], ArgumentRef::X25519Pubkey(5)));
    assert!(matches!(args.args[10], ArgumentRef::PlaintextU128(3)));

    assert_eq!(
        args.byte_arrays,
        vec![[7u8; 32], [11u8; 32], [12u8; 32], [9u8; 32], [7u8; 32], [7u8; 32]]
    );
    assert_eq!(args.values_128_bit, vec![1001u128, 1002, 41, 43]);
    assert!(args.plaintext_numbers.is_empty());
    assert_eq!(args.accounts.len(), 1);
    assert_eq!(args.accounts[0].pubkey.to_bytes(), [31u8; 32]);
    assert_eq!(args.accounts[0].offset, 8);
    assert_eq!(args.accounts[0].length, 32);
}

#[test]
fn stake_request_scopes_the_callback_to_both_accounts() {
    let mut ctx = stake_ctx();
    let request = stake(&mut ctx, 1_200, 99, 0, [11u8; 32], [12u8; 32], 1, 2).unwrap();
    assert_eq!(
        request.callback_accounts,
        vec![
            CallbackAccount { pubkey: key(31), is_writable: true },
            CallbackAccount { pubkey: key(32), is_writable: true },
        ]
    );
}

#[test]
fn unwrap_request_carries_the_amount_in_the_clear() {
    let mut ctx = UnwrapEncryptedTokens {
        signer: key(1),
        token_mint: key(20),
        encrypted_token_account: Account { key: key(31), data: eta(key(1)) },
        token_vault: Account { key: key(40), data: TokenVault { bump: 1, fund_manager: key(41) } },
        token_vault_ata: key(42),
        user_token_account: key(43),
        token_program: key(44),
    };
    let request = unwrap_encrypted_tokens(&mut ctx, 5, 150).unwrap();
    assert_eq!(request.comp_def_offset, 818760332);
    let args = &request.args;
    assert_eq!(args.args.len(), 4);
    assert!(matches!(args.args[0], ArgumentRef::X25519Pubkey(0)));
    assert!(matches!(args.args[1], ArgumentRef::PlaintextU128(0)));
    assert!(matches!(args.args[2], ArgumentRef::Account(0)));
    assert!(matches!(args.args[3], ArgumentRef::PlaintextU64(0)));
    assert_eq!(args.plaintext_numbers, vec![150u64]);
    assert_eq!(args.values_128_bit, vec![41u128]);
    assert_eq!(args.byte_arrays, vec![[7u8; 32]]);
    assert_eq!(
        request.callback_accounts,
        vec![
            CallbackAccount { pubkey: key(31), is_writable: true },
            CallbackAccount { pubkey: key(43), is_writable: true },
            CallbackAccount { pubkey: key(40), is_writable: false },
            CallbackAccount { pubkey: key(42), is_writable: true },
            CallbackAccount { pubkey: key(20), is_writable: false },
            CallbackAccount { pubkey: key(44), is_writable: false },
        ]
    );
}

#[test]
fn wrap_request_tells_whether_the_balance_was_written_before() {
    let mut written = WrapEncryptedTokens {
        signer: key(1),
        token_mint: key(20),
        encrypted_token_account: Account { key: key(31), data: eta(key(1)) },
        signer_token_account: key(45),
        token_vault: Account { key: key(40), data: TokenVault { bump: 1, fund_manager: key(41) } },
        token_vault_ata: key(42),
    };
    let submission = wrap_encrypted_tokens(&mut written, 6, 25).unwrap();
    let args = &submission.request.args;
    assert_eq!(args.args.len(), 5);
    assert!(matches!(args.args[3], ArgumentRef::PlaintextBool(true)));
    assert!(matches!(args.args[4], ArgumentRef::PlaintextU64(0)));
    assert_eq!(args.plaintext_numbers, vec![25u64]);

    let mut fresh_account = eta(key(1));
    fresh_account.state_nonce = 0;
    let mut fresh = WrapEncryptedTokens {
        signer: key(1),
        token_mint: key(20),
        encrypted_token_account: Account { key: key(31), data: fresh_account },
        signer_token_account: key(45),
        token_vault: Account { key: key(40), data: TokenVault { bump: 1, fund_manager: key(41) } },
        token_vault_ata: key(42),
    };
    let submission = wrap_encrypted_tokens(&mut fresh, 6, 25).unwrap();
    assert!(matches!(submission.request.args.args[3], ArgumentRef::PlaintextBool(false)));
    assert_eq!(submission.request.args.values_128_bit, vec![0u128]);
}

#[test]
fn reveal_request_reads_two_ciphertexts_of_the_share_account() {
    let mut market = market();
    market.open_timestamp = Some(1_000);
    let mut ctx = RevealShares {
        signer: key(2),
        owner: key(1),
        market: Account { key: key(30), data: market },
        share_account: Account { key: key(32), data: share(key(1)) },
        user_eta: Account { key: key(31), data: eta(key(1)) },
    };
    let request = reveal_shares(&mut ctx, 1_500, 8, 0).unwrap();
    assert_eq!(request.comp_def_offset, 2093380811);
    let args = &request.args;
    assert_eq!(args.args.len(), 7);
    assert!(matches!(args.args[2], ArgumentRef::Account(0)));
    assert!(matches!(args.args[5], ArgumentRef::Account(1)));
    assert!(matches!(args.args[6], ArgumentRef::PlaintextBool(true)));
    assert_eq!(args.accounts[0].pubkey.to_bytes(), [32u8; 32]);
    assert_eq!(args.accounts[0].offset, 8);
    assert_eq!(args.accounts[0].length, 64);
    assert_eq!(args.accounts[1].pubkey.to_bytes(), [31u8; 32]);
    assert_eq!(args.accounts[1].length, 32);
    assert_eq!(args.values_128_bit, vec![43u128, 41]);
}
