//! The confidential functions that the cluster evaluates.
//!
//! Each takes secret records together with plaintext parameters and returns
//! an output of one fixed shape. Where an operation can be declined (not
//! enough balance, a deposit under the minimum, no capacity left) the circuit
//! computes the error predicate first, then the value of every output field
//! for both outcomes, and selects between them without branching
//! ([`crate::select`]). A declined operation therefore returns the same
//! fields as an applied one: the balances unchanged and a purchase of zero.
//!
//! Only what a circuit declares is revealed: an error flag, the amount moved
//! by a withdrawal, the two fields of a revealed share record. What stays
//! secret comes back as an [`Enc`] for one recipient.

use vstd::prelude::*;
use crate::select::{either, select_u64};

verus! {

/// The recipient of an encrypted value, known by its x25519 public key.
#[derive(Clone, Copy, Debug, PartialEq, Eq)]
pub struct Shared {
    pub public_key: [u8; 32],
}

/// A secret record as it enters or leaves a circuit: the record and the
/// recipient that can read it.
#[derive(Debug, PartialEq, Eq)]
pub struct Enc<T> {
    pub owner: Shared,
    pub data: T,
}

impl<T> Enc<T> {
    /// The record inside, as the circuit sees it.
    pub fn to_arcis(self) -> (data: T)
        ensures
            data == self.data,
    {
        self.data
    }
}

impl Shared {
    /// `data` sealed for this recipient.
    pub fn from_arcis<T>(self, data: T) -> (sealed: Enc<T>)
        ensures
            sealed == (Enc { owner: self, data }),
    {
        Enc { owner: self, data }
    }
}

/// An encrypted token balance.
#[derive(Clone, Copy, Debug, PartialEq, Eq)]
pub struct EncryptedTokenBalance {
    pub amount: u64,
}

/// What a buyer submits: how much to stake and on which option.
#[derive(Clone, Copy, Debug, PartialEq, Eq)]
pub struct BuySharesInput {
    pub amount: u64,
    pub selected_option: u16,
}

/// The shares held by a share account.
#[derive(Clone, Copy, Debug, PartialEq, Eq)]
pub struct SharePurchase {
    pub amount: u64,
    pub selected_option: u16,
}

/// What the creator of an option submits: how much to stake on it.
#[derive(Clone, Copy, Debug, PartialEq, Eq)]
pub struct AddOptionStakeInput {
    pub amount: u64,
}

/// The shares a market can still sell. It belongs to the cluster itself, so
/// it carries no recipient.
#[derive(Clone, Copy, Debug, PartialEq, Eq)]
pub struct MarketShareState {
    pub available_shares: u64,
}

impl EncryptedTokenBalance {
    /// The scalars of the record, one ciphertext each.
    pub open spec fn field_elements(self) -> Seq<u64> {
        seq![self.amount]
    }
}

impl SharePurchase {
    /// The scalars of the record, one ciphertext each.
    pub open spec fn field_elements(self) -> Seq<u64> {
        seq![self.amount, self.selected_option as u64]
    }
}

impl MarketShareState {
    /// The scalars of the record, one ciphertext each.
    pub open spec fn field_elements(self) -> Seq<u64> {
        seq![self.available_shares]
    }
}

/// The balance a credit starts from: the stored one, or zero for an account
/// that no computation has written yet.
pub open spec fn starting_balance(balance: EncryptedTokenBalance, is_initialized: bool) -> int {
    if is_initialized {
        balance.amount as int
    } else {
        0
    }
}

/// The result of [`unwrap_encrypted_tokens`]: a withdrawal of `amount` from
/// `balance` is declined when it exceeds the balance, and then moves nothing.
pub open spec fn unwrap_encrypted_tokens_spec(
    balance_ctx: Enc<EncryptedTokenBalance>,
    amount: u64,
) -> (bool, u64, Enc<EncryptedTokenBalance>) {
    let balance = balance_ctx.data.amount;
    let error = amount > balance;
    (
        error,
        if error { 0 } else { amount },
        Enc {
            owner: balance_ctx.owner,
            data: EncryptedTokenBalance {
                amount: if error { balance } else { (balance - amount) as u64 },
            },
        },
    )
}

/// The result of [`add_option_stake`]: the stake is declined when it is under
/// `min_deposit` or over the balance. The option index arrives as 64 bits and
/// is cut to 16.
pub open spec fn add_option_stake_spec(
    input_ctx: Enc<AddOptionStakeInput>,
    shares_recipient_ctx: Shared,
    user_eta_ctx: Enc<EncryptedTokenBalance>,
    share_account_ctx: Shared,
    min_deposit: u64,
    selected_option: u64,
) -> (bool, Enc<EncryptedTokenBalance>, Enc<SharePurchase>, Enc<SharePurchase>) {
    let amount = input_ctx.data.amount;
    let balance = user_eta_ctx.data.amount;
    let error = amount < min_deposit || amount > balance;
    let bought = SharePurchase {
        amount: if error { 0 } else { amount },
        selected_option: (selected_option % 0x1_0000) as u16,
    };
    (
        error,
        Enc {
            owner: user_eta_ctx.owner,
            data: EncryptedTokenBalance {
                amount: if error { balance } else { (balance - amount) as u64 },
            },
        },
        Enc { owner: share_account_ctx, data: bought },
        Enc { owner: shares_recipient_ctx, data: bought },
    )
}

/// The result of [`buy_opportunity_market_shares`]: the purchase is declined
/// when it exceeds the balance.
pub open spec fn buy_opportunity_market_shares_spec(
    input_ctx: Enc<BuySharesInput>,
    shares_recipient_ctx: Shared,
    user_eta_ctx: Enc<EncryptedTokenBalance>,
    share_account_ctx: Shared,
) -> (bool, Enc<EncryptedTokenBalance>, Enc<SharePurchase>, Enc<SharePurchase>) {
    let amount = input_ctx.data.amount;
    let balance = user_eta_ctx.data.amount;
    let error = amount > balance;
    let bought = SharePurchase {
        amount: if error { 0 } else { amount },
        selected_option: input_ctx.data.selected_option,
    };
    (
        error,
        Enc {
            owner: user_eta_ctx.owner,
            data: EncryptedTokenBalance {
                amount: if error { balance } else { (balance - amount) as u64 },
            },
        },
        Enc { owner: share_account_ctx, data: bought },
        Enc { owner: shares_recipient_ctx, data: bought },
    )
}

/// The result of [`buy_conviction_market_shares`]: the purchase is declined
/// when it exceeds the buyer's balance or the shares the market has left, and
/// then changes neither.
pub open spec fn buy_conviction_market_shares_spec(
    input_ctx: Enc<BuySharesInput>,
    shares_recipient_ctx: Shared,
    user_vta_ctx: Enc<EncryptedTokenBalance>,
    market_shares: MarketShareState,
    share_account_ctx: Shared,
) -> (bool, Enc<EncryptedTokenBalance>, MarketShareState, Enc<SharePurchase>, Enc<SharePurchase>) {
    let amount = input_ctx.data.amount;
    let balance = user_vta_ctx.data.amount;
    let capacity = market_shares.available_shares;
    let error = amount > balance || amount > capacity;
    let bought = SharePurchase {
        amount: if error { 0 } else { amount },
        selected_option: input_ctx.data.selected_option,
    };
    (
        error,
        Enc {
            owner: user_vta_ctx.owner,
            data: EncryptedTokenBalance {
                amount: if error { balance } else { (balance - amount) as u64 },
            },
        },
        MarketShareState {
            available_shares: if error { capacity } else { (capacity - amount) as u64 },
        },
        Enc { owner: share_account_ctx, data: bought },
        Enc { owner: shares_recipient_ctx, data: bought },
    )
}

/// Credits `amount` to a balance. An account that no computation has written
/// yet (`is_initialized` false) holds no ciphertext to read, and counts as
/// zero. There is no error path: that the sum fits is the caller's concern.
pub fn wrap_encrypted_tokens(
    balance_ctx: Enc<EncryptedTokenBalance>,
    is_initialized: bool,
    amount: u64,
) -> (new_balance: Enc<EncryptedTokenBalance>)
    requires
        starting_balance(balance_ctx.data, is_initialized) + amount <= u64::MAX,
    ensures
        new_balance.owner == balance_ctx.owner,
        new_balance.data.amount == starting_balance(balance_ctx.data, is_initialized) + amount,
{
    let owner = balance_ctx.owner;
    let stored = balance_ctx.to_arcis();
    let start = select_u64(is_initialized, stored.amount, 0);
    owner.from_arcis(EncryptedTokenBalance { amount: start + amount })
}

/// Deducts `amount` from a balance, if the balance covers it. Returns the
/// error flag and the amount moved, both revealed, and the new balance for
/// the same owner.
pub fn unwrap_encrypted_tokens(balance_ctx: Enc<EncryptedTokenBalance>, amount: u64) -> (out: (
    bool,
    u64,
    Enc<EncryptedTokenBalance>,
))
    ensures
        out == unwrap_encrypted_tokens_spec(balance_ctx, amount),
{
    let owner = balance_ctx.owner;
    let balance = balance_ctx.to_arcis();
    let insufficient_balance = amount > balance.amount;
    let reduced = balance.amount.wrapping_sub(amount);
    let new_amount = select_u64(insufficient_balance, balance.amount, reduced);
    let sold = select_u64(insufficient_balance, 0, amount);
    (insufficient_balance, sold, owner.from_arcis(EncryptedTokenBalance { amount: new_amount }))
}

/// Stakes on a newly created option: deducts the stake from the creator's
/// balance and records it as a share purchase, once for the share account
/// and once for the reader the market designates.
pub fn add_option_stake(
    input_ctx: Enc<AddOptionStakeInput>,
    shares_recipient_ctx: Shared,
    user_eta_ctx: Enc<EncryptedTokenBalance>,
    share_account_ctx: Shared,
    min_deposit: u64,
    selected_option: u64,
) -> (out: (bool, Enc<EncryptedTokenBalance>, Enc<SharePurchase>, Enc<SharePurchase>))
    ensures
        out == add_option_stake_spec(
            input_ctx,
            shares_recipient_ctx,
            user_eta_ctx,
            share_account_ctx,
            min_deposit,
            selected_option,
        ),
{
    let balance_owner = user_eta_ctx.owner;
    let input = input_ctx.to_arcis();
    let user_balance = user_eta_ctx.to_arcis();
    let amount = input.amount;
    let below_min = amount < min_deposit;
    let insufficient_user_balance = amount > user_balance.amount;
    let error = either(below_min, insufficient_user_balance);
    let option_index: u16 = #[verifier::truncate] (selected_option as u16);
    assert(option_index == selected_option % 0x1_0000) by (bit_vector)
        requires
            option_index == selected_option as u16,
    ;
    let bought_shares = SharePurchase {
        amount: select_u64(error, 0, amount),
        selected_option: option_index,
    };
    let reduced = user_balance.amount.wrapping_sub(amount);
    let new_balance = EncryptedTokenBalance {
        amount: select_u64(error, user_balance.amount, reduced),
    };
    (
        error,
        balance_owner.from_arcis(new_balance),
        share_account_ctx.from_arcis(bought_shares),
        shares_recipient_ctx.from_arcis(bought_shares),
    )
}

/// Buys shares of an option with the buyer's encrypted balance. The purchase
/// is returned twice, for the share account and for the designated reader.
pub fn buy_opportunity_market_shares(
    input_ctx: Enc<BuySharesInput>,
    shares_recipient_ctx: Shared,
    user_eta_ctx: Enc<EncryptedTokenBalance>,
    share_account_ctx: Shared,
) -> (out: (bool, Enc<EncryptedTokenBalance>, Enc<SharePurchase>, Enc<SharePurchase>))
    ensures
        out == buy_opportunity_market_shares_spec(
            input_ctx,
            shares_recipient_ctx,
            user_eta_ctx,
            share_account_ctx,
        ),
{
    let balance_owner = user_eta_ctx.owner;
    let input = input_ctx.to_arcis();
    let user_balance = user_eta_ctx.to_arcis();
    let amount = input.amount;
    let error = amount > user_balance.amount;
    let bought_shares = SharePurchase {
        amount: select_u64(error, 0, amount),
        selected_option: input.selected_option,
    };
    let reduced = user_balance.amount.wrapping_sub(amount);
    let new_balance = EncryptedTokenBalance {
        amount: select_u64(error, user_balance.amount, reduced),
    };
    (
        error,
        balance_owner.from_arcis(new_balance),
        share_account_ctx.from_arcis(bought_shares),
        shares_recipient_ctx.from_arcis(bought_shares),
    )
}

/// Buys shares of a market that sells a limited number of them: the buyer's
/// balance and the market's remaining shares both go down by the amount, or
/// neither does.
pub fn buy_conviction_market_shares(
    input_ctx: Enc<BuySharesInput>,
    shares_recipient_ctx: Shared,
    user_vta_ctx: Enc<EncryptedTokenBalance>,
    market_shares: MarketShareState,
    share_account_ctx: Shared,
) -> (out: (
    bool,
    Enc<EncryptedTokenBalance>,
    MarketShareState,
    Enc<SharePurchase>,
    Enc<SharePurchase>,
))
    ensures
        out == buy_conviction_market_shares_spec(
            input_ctx,
            shares_recipient_ctx,
            user_vta_ctx,
            market_shares,
            share_account_ctx,
        ),
{
    let balance_owner = user_vta_ctx.owner;
    let input = input_ctx.to_arcis();
    let user_balance = user_vta_ctx.to_arcis();
    let amount = input.amount;
    let insufficient_user_balance = amount > user_balance.amount;
    let insufficient_market_shares = amount > market_shares.available_shares;
    let error = either(insufficient_user_balance, insufficient_market_shares);
    let bought_shares = SharePurchase {
        amount: select_u64(error, 0, amount),
        selected_option: input.selected_option,
    };
    let reduced_balance = user_balance.amount.wrapping_sub(amount);
    let reduced_shares = market_shares.available_shares.wrapping_sub(amount);
    let new_balance = EncryptedTokenBalance {
        amount: select_u64(error, user_balance.amount, reduced_balance),
    };
    let new_market_shares = MarketShareState {
        available_shares: select_u64(error, market_shares.available_shares, reduced_shares),
    };
    (
        error,
        balance_owner.from_arcis(new_balance),
        new_market_shares,
        share_account_ctx.from_arcis(bought_shares),
        shares_recipient_ctx.from_arcis(bought_shares),
    )
}

/// Reveals a share record and credits its amount back to the owner's
/// balance. Both fields of the record are returned in the clear. There is no
/// error path: whether revealing is allowed is decided on the ledger.
pub fn reveal_shares(
    share_account_ctx: Enc<SharePurchase>,
    user_eta_ctx: Enc<EncryptedTokenBalance>,
    is_eta_initialized: bool,
) -> (out: (u64, u16, Enc<EncryptedTokenBalance>))
    requires
        starting_balance(user_eta_ctx.data, is_eta_initialized) + share_account_ctx.data.amount
            <= u64::MAX,
    ensures
        out.0 == share_account_ctx.data.amount,
        out.1 == share_account_ctx.data.selected_option,
        out.2.owner == user_eta_ctx.owner,
        out.2.data.amount == starting_balance(user_eta_ctx.data, is_eta_initialized)
            + share_account_ctx.data.amount,
{
    let balance_owner = user_eta_ctx.owner;
    let share_data = share_account_ctx.to_arcis();
    let stored = user_eta_ctx.to_arcis();
    let start = select_u64(is_eta_initialized, stored.amount, 0);
    let new_balance = EncryptedTokenBalance { amount: start + share_data.amount };
    (share_data.amount, share_data.selected_option, balance_owner.from_arcis(new_balance))
}

/// Refunds a stake before the staking period ends: credits the share
/// record's amount back to the owner's balance and reveals nothing.
pub fn unstake_early(
    share_account_ctx: Enc<SharePurchase>,
    user_eta_ctx: Enc<EncryptedTokenBalance>,
    is_eta_initialized: bool,
) -> (new_balance: Enc<EncryptedTokenBalance>)
    requires
        starting_balance(user_eta_ctx.data, is_eta_initialized) + share_account_ctx.data.amount
            <= u64::MAX,
    ensures
        new_balance.owner == user_eta_ctx.owner,
        new_balance.data.amount == starting_balance(user_eta_ctx.data, is_eta_initialized)
            + share_account_ctx.data.amount,
{
    let balance_owner = user_eta_ctx.owner;
    let share_data = share_account_ctx.to_arcis();
    let stored = user_eta_ctx.to_arcis();
    let start = select_u64(is_eta_initialized, stored.amount, 0);
    balance_owner.from_arcis(EncryptedTokenBalance { amount: start + share_data.amount })
}

/// Conservation: a withdrawal that the balance covers moves exactly the
/// amount asked for and the new balance and the amount moved add up to the
/// old balance; one that it does not cover moves nothing and leaves the
/// balance as it was.
pub proof fn lemma_unwrap_conserves(balance_ctx: Enc<EncryptedTokenBalance>, amount: u64)
    ensures
        ({
            let (error, amount_moved, new_balance) = unwrap_encrypted_tokens_spec(
                balance_ctx,
                amount,
            );
            &&& error == (amount > balance_ctx.data.amount)
            &&& new_balance.owner == balance_ctx.owner
            &&& amount <= balance_ctx.data.amount ==> {
                &&& new_balance.data.amount + amount_moved == balance_ctx.data.amount
                &&& amount_moved == amount
            }
            &&& amount > balance_ctx.data.amount ==> {
                &&& new_balance.data.amount == balance_ctx.data.amount
                &&& amount_moved == 0
            }
        }),
{
}

/// Conservation for a purchase: the buyer's new balance and the shares
/// bought add up to the old balance, whether or not the purchase was
/// declined; a declined purchase buys zero shares of the option asked for.
pub proof fn lemma_buy_conserves(
    input_ctx: Enc<BuySharesInput>,
    shares_recipient_ctx: Shared,
    user_eta_ctx: Enc<EncryptedTokenBalance>,
    share_account_ctx: Shared,
)
    ensures
        ({
            let (error, new_balance, for_account, for_reader) =
                buy_opportunity_market_shares_spec(
                input_ctx,
                shares_recipient_ctx,
                user_eta_ctx,
                share_account_ctx,
            );
            &&& new_balance.data.amount + for_account.data.amount == user_eta_ctx.data.amount
            &&& for_account.data == for_reader.data
            &&& for_account.data.selected_option == input_ctx.data.selected_option
            &&& error ==> for_account.data.amount == 0
            &&& !error ==> for_account.data.amount == input_ctx.data.amount
        }),
{
}

/// Conservation for a purchase from a limited market: what leaves the
/// buyer's balance leaves the market's remaining shares and arrives in the
/// share record, and a declined purchase moves nothing.
pub proof fn lemma_buy_with_capacity_conserves(
    input_ctx: Enc<BuySharesInput>,
    shares_recipient_ctx: Shared,
    user_vta_ctx: Enc<EncryptedTokenBalance>,
    market_shares: MarketShareState,
    share_account_ctx: Shared,
)
    ensures
        ({
            let (error, new_balance, new_shares, for_account, for_reader) =
                buy_conviction_market_shares_spec(
                input_ctx,
                shares_recipient_ctx,
                user_vta_ctx,
                market_shares,
                share_account_ctx,
            );
            &&& new_balance.data.amount + for_account.data.amount == user_vta_ctx.data.amount
            &&& new_shares.available_shares + for_account.data.amount
                == market_shares.available_shares
            &&& for_account.data == for_reader.data
            &&& error ==> for_account.data.amount == 0
            &&& !error ==> for_account.data.amount == input_ctx.data.amount
        }),
{
}

/// Oblivious shape: whatever goes in, and whether or not the error predicate
/// holds, every circuit with an error path returns the same fields. A balance
/// is always one scalar, a share record always two, also for a purchase that
/// was declined.
pub proof fn lemma_output_shape_is_fixed(
    balance_ctx: Enc<EncryptedTokenBalance>,
    amount: u64,
    stake_ctx: Enc<AddOptionStakeInput>,
    buy_ctx: Enc<BuySharesInput>,
    shares_recipient_ctx: Shared,
    share_account_ctx: Shared,
    market_shares: MarketShareState,
    min_deposit: u64,
    selected_option: u64,
)
    ensures
        unwrap_encrypted_tokens_spec(balance_ctx, amount).2.data.field_elements().len() == 1,
        ({
            let out = add_option_stake_spec(
                stake_ctx,
                shares_recipient_ctx,
                balance_ctx,
                share_account_ctx,
                min_deposit,
                selected_option,
            );
            &&& out.1.data.field_elements().len() == 1
            &&& out.2.data.field_elements().len() == 2
            &&& out.3.data.field_elements().len() == 2
        }),
        ({
            let out = buy_opportunity_market_shares_spec(
                buy_ctx,
                shares_recipient_ctx,
                balance_ctx,
                share_account_ctx,
            );
            &&& out.1.data.field_elements().len() == 1
            &&& out.2.data.field_elements().len() == 2
            &&& out.3.data.field_elements().len() == 2
        }),
        ({
            let out = buy_conviction_market_shares_spec(
                buy_ctx,
                shares_recipient_ctx,
                balance_ctx,
                market_shares,
                share_account_ctx,
            );
            &&& out.1.data.field_elements().len() == 1
            &&& out.2.field_elements().len() == 1
            &&& out.3.data.field_elements().len() == 2
            &&& out.4.data.field_elements().len() == 2
        }),
{
}

} // verus!
