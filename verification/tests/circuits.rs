use confidential_markets::circuits::{
    add_option_stake, buy_conviction_market_shares, buy_opportunity_market_shares, reveal_shares,
    unstake_early, unwrap_encrypted_tokens, wrap_encrypted_tokens, AddOptionStakeInput,
    BuySharesInput, Enc, EncryptedTokenBalance, MarketShareState, SharePurchase, Shared,
};
use confidential_markets::select::{either, select_u64};

fn user() -> Shared {
    Shared { public_key: [1u8; 32] }
}

fn reader() -> Shared {
    Shared { public_key: [2u8; 32] }
}

fn account_ctx() -> Shared {
    Shared { public_key: [3u8; 32] }
}

fn balance(amount: u64) -> Enc<EncryptedTokenBalance> {
    Enc { owner: user(), data: EncryptedTokenBalance { amount } }
}

fn buy_input(amount: u64, selected_option: u16) -> Enc<BuySharesInput> {
    Enc { owner: user(), data: BuySharesInput { amount, selected_option } }
}

#[test]
fn select_u64_picks_by_condition() {
    assert_eq!(select_u64(true, 7, 9), 7);
    assert_eq!(select_u64(false, 7, 9), 9);
    assert_eq!(select_u64(true, u64::MAX, 0), u64::MAX);
    assert_eq!(select_u64(false, u64::MAX, 0), 0);
    assert_eq!(select_u64(false, 0, u64::MAX), u64::MAX);
}

#[test]
fn either_is_disjunction() {
    assert!(!either(false, false));
    assert!(either(true, false));
    assert!(either(false, true));
    assert!(either(true, true));
}

#[test]
fn deduct_more_than_balance_is_declined() {
    let (error, amount_moved, new_balance) = unwrap_encrypted_tokens(balance(100), 150);
    assert!(error);
    assert_eq!(amount_moved, 0);
    assert_eq!(new_balance.data.amount, 100);
    assert_eq!(new_balance.owner, user());
}

#[test]
fn deduct_within_balance_is_applied() {
    let (error, amount_moved, new_balance) = unwrap_encrypted_tokens(balance(100), 40);
    assert!(!error);
    assert_eq!(amount_moved, 40);
    assert_eq!(new_balance.data.amount, 60);
}

#[test]
fn deduct_whole_balance_is_applied() {
    let (error, amount_moved, new_balance) = unwrap_encrypted_tokens(balance(100), 100);
    assert!(!error);
    assert_eq!(amount_moved, 100);
    assert_eq!(new_balance.data.amount, 0);
}

#[test]
fn deduct_one_more_than_balance_is_declined() {
    let (error, amount_moved, new_balance) = unwrap_encrypted_tokens(balance(100), 101);
    assert!(error);
    assert_eq!(amount_moved, 0);
    assert_eq!(new_balance.data.amount, 100);
}

#[test]
fn deduct_nothing_from_nothing_is_applied() {
    let (error, amount_moved, new_balance) = unwrap_encrypted_tokens(balance(0), 0);
    assert!(!error);
    assert_eq!(amount_moved, 0);
    assert_eq!(new_balance.data.amount, 0);
}

#[test]
fn deduct_conserves_on_a_grid_of_values() {
    let values = [0u64, 1, 2, 99, 100, 101, 1 << 32, u64::MAX - 1, u64::MAX];
    for b in values {
        for a in values {
            let (error, amount_moved, new_balance) = unwrap_encrypted_tokens(balance(b), a);
            if a <= b {
                assert!(!error);
                assert_eq!(amount_moved, a);
                assert_eq!(new_balance.data.amount as u128 + amount_moved as u128, b as u128);
            } else {
                assert!(error);
                assert_eq!(amount_moved, 0);
                assert_eq!(new_balance.data.amount, b);
            }
        }
    }
}

#[test]
fn credit_adds_to_an_initialized_balance() {
    let new_balance = wrap_encrypted_tokens(balance(100), true, 25);
    assert_eq!(new_balance.data.amount, 125);
    assert_eq!(new_balance.owner, user());
}

#[test]
fn credit_starts_from_zero_when_not_initialized() {
    let new_balance = wrap_encrypted_tokens(balance(100), false, 25);
    assert_eq!(new_balance.data.amount, 25);
}

#[test]
fn credit_up_to_the_largest_balance() {
    let new_balance = wrap_encrypted_tokens(balance(u64::MAX - 5), true, 5);
    assert_eq!(new_balance.data.amount, u64::MAX);
}

#[test]
fn buy_within_balance_moves_the_amount_into_shares() {
    let (error, new_balance, for_account, for_reader) =
        buy_opportunity_market_shares(buy_input(30, 2), reader(), balance(100), account_ctx());
    assert!(!error);
    assert_eq!(new_balance.data.amount, 70);
    assert_eq!(new_balance.owner, user());
    assert_eq!(for_account.data, SharePurchase { amount: 30, selected_option: 2 });
    assert_eq!(for_account.owner, account_ctx());
    assert_eq!(for_reader.data, SharePurchase { amount: 30, selected_option: 2 });
    assert_eq!(for_reader.owner, reader());
}

#[test]
fn buy_over_balance_returns_a_zero_share_record() {
    let (error, new_balance, for_account, for_reader) =
        buy_opportunity_market_shares(buy_input(101, 2), reader(), balance(100), account_ctx());
    assert!(error);
    assert_eq!(new_balance.data.amount, 100);
    assert_eq!(for_account.data, SharePurchase { amount: 0, selected_option: 2 });
    assert_eq!(for_reader.data, SharePurchase { amount: 0, selected_option: 2 });
    assert_eq!(for_account.owner, account_ctx());
    assert_eq!(for_reader.owner, reader());
}

#[test]
fn market_capacity_is_used_up_by_two_purchases_and_refuses_the_third() {
    let mut user_balance = balance(100);
    let mut capacity = MarketShareState { available_shares: 10 };

    let (error, new_balance, new_capacity, shares, _) = buy_conviction_market_shares(
        buy_input(5, 1),
        reader(),
        user_balance,
        capacity,
        account_ctx(),
    );
    assert!(!error);
    assert_eq!(shares.data.amount, 5);
    assert_eq!(new_capacity.available_shares, 5);
    assert_eq!(new_balance.data.amount, 95);
    user_balance = new_balance;
    capacity = new_capacity;

    let (error, new_balance, new_capacity, shares, _) = buy_conviction_market_shares(
        buy_input(5, 1),
        reader(),
        user_balance,
        capacity,
        account_ctx(),
    );
    assert!(!error);
    assert_eq!(shares.data.amount, 5);
    assert_eq!(new_capacity.available_shares, 0);
    assert_eq!(new_balance.data.amount, 90);
    user_balance = new_balance;
    capacity = new_capacity;

    let (error, new_balance, new_capacity, for_account, for_reader) = buy_conviction_market_shares(
        buy_input(5, 1),
        reader(),
        user_balance,
        capacity,
        account_ctx(),
    );
    assert!(error);
    assert_eq!(new_capacity.available_shares, 0);
    assert_eq!(new_balance.data.amount, 90);
    assert_eq!(for_account.data, SharePurchase { amount: 0, selected_option: 1 });
    assert_eq!(for_reader.data, SharePurchase { amount: 0, selected_option: 1 });
}

#[test]
fn purchase_over_balance_leaves_capacity_alone() {
    let (error, new_balance, new_capacity, shares, _) = buy_conviction_market_shares(
        buy_input(8, 3),
        reader(),
        balance(7),
        MarketShareState { available_shares: 10 },
        account_ctx(),
    );
    assert!(error);
    assert_eq!(new_balance.data.amount, 7);
    assert_eq!(new_capacity.available_shares, 10);
    assert_eq!(shares.data.amount, 0);
}

#[test]
fn option_stake_under_the_minimum_is_declined() {
    let input = Enc { owner: user(), data: AddOptionStakeInput { amount: 9 } };
    let (error, new_balance, for_account, for_reader) =
        add_option_stake(input, reader(), balance(100), account_ctx(), 10, 4);
    assert!(error);
    assert_eq!(new_balance.data.amount, 100);
    assert_eq!(for_account.data, SharePurchase { amount: 0, selected_option: 4 });
    assert_eq!(for_reader.data, SharePurchase { amount: 0, selected_option: 4 });
}

#[test]
fn option_stake_over_the_balance_is_declined() {
    let input = Enc { owner: user(), data: AddOptionStakeInput { amount: 101 } };
    let (error, new_balance, for_account, _) =
        add_option_stake(input, reader(), balance(100), account_ctx(), 10, 4);
    assert!(error);
    assert_eq!(new_balance.data.amount, 100);
    assert_eq!(for_account.data.amount, 0);
}

#[test]
fn option_stake_at_the_minimum_is_applied() {
    let input = Enc { owner: user(), data: AddOptionStakeInput { amount: 10 } };
    let (error, new_balance, for_account, for_reader) =
        add_option_stake(input, reader(), balance(100), account_ctx(), 10, 4);
    assert!(!error);
    assert_eq!(new_balance.data.amount, 90);
    assert_eq!(new_balance.owner, user());
    assert_eq!(for_account.data, SharePurchase { amount: 10, selected_option: 4 });
    assert_eq!(for_account.owner, account_ctx());
    assert_eq!(for_reader.owner, reader());
}

#[test]
fn option_index_is_cut_to_sixteen_bits() {
    let input = Enc { owner: user(), data: AddOptionStakeInput { amount: 10 } };
    let (_, _, for_account, _) =
        add_option_stake(input, reader(), balance(100), account_ctx(), 0, 0x1_0005);
    assert_eq!(for_account.data.selected_option, 5);
}

#[test]
fn reveal_discloses_both_fields_and_credits_the_amount() {
    let shares = Enc { owner: user(), data: SharePurchase { amount: 40, selected_option: 3 } };
    let (amount, option, new_balance) = reveal_shares(shares, balance(60), true);
    assert_eq!(amount, 40);
    assert_eq!(option, 3);
    assert_eq!(new_balance.data.amount, 100);
    assert_eq!(new_balance.owner, user());
}

#[test]
fn reveal_into_a_fresh_balance_starts_from_zero() {
    let shares = Enc { owner: user(), data: SharePurchase { amount: 40, selected_option: 3 } };
    let (amount, option, new_balance) = reveal_shares(shares, balance(60), false);
    assert_eq!(amount, 40);
    assert_eq!(option, 3);
    assert_eq!(new_balance.data.amount, 40);
}

#[test]
fn unstake_early_refunds_the_stake() {
    let shares = Enc { owner: user(), data: SharePurchase { amount: 40, selected_option: 3 } };
    assert_eq!(unstake_early(shares, balance(60), true).data.amount, 100);
    let shares = Enc { owner: user(), data: SharePurchase { amount: 40, selected_option: 3 } };
    assert_eq!(unstake_early(shares, balance(60), false).data.amount, 40);
}

#[test]
fn buy_then_reveal_restores_the_balance() {
    let (error, after_buy, for_account, _) =
        buy_opportunity_market_shares(buy_input(30, 2), reader(), balance(100), account_ctx());
    assert!(!error);
    let shares = Enc { owner: user(), data: for_account.data };
    let (amount, option, after_reveal) = reveal_shares(shares, after_buy, true);
    assert_eq!(amount, 30);
    assert_eq!(option, 2);
    assert_eq!(after_reveal.data.amount, 100);
}
