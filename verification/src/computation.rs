//! What a submit hands to the cluster and what a callback gets back.

use vstd::prelude::*;
use arcium_anchor::prelude::ArgumentList;
use crate::arguments::{argument_list_contents, comp_def_offset_of, Argument};
use crate::pubkey::Pubkey;

verus! {

/// An account on the ledger: its address and the record stored under it.
#[derive(Debug)]
pub struct Account<T> {
    pub key: Pubkey,
    pub data: T,
}

/// An account that the callback of a computation may touch. The list of
/// these is fixed when the computation is queued; a callback is handed these
/// accounts and no others.
#[derive(Clone, Copy, Debug, PartialEq, Eq)]
pub struct CallbackAccount {
    pub pubkey: Pubkey,
    pub is_writable: bool,
}

/// A computation ready to be queued: which circuit, under which offset, with
/// which arguments, and which accounts its callback is scoped to.
#[derive(Debug)]
pub struct ComputationRequest {
    /// The caller's tag for this computation, unique among those in flight.
    pub computation_offset: u64,
    /// The offset of the circuit's definition.
    pub comp_def_offset: u32,
    pub args: ArgumentList,
    pub callback_accounts: Vec<CallbackAccount>,
    /// The number of transactions the callback takes.
    pub num_callback_txs: u8,
    /// The priority fee, in micro-lamports per compute unit.
    pub cu_price_micro: u64,
}

impl ComputationRequest {
    /// The request for `circuit` under `computation_offset`, with arguments
    /// `args` and a one-transaction callback scoped to `callback_accounts`.
    pub open spec fn describes(
        self,
        circuit: Seq<char>,
        computation_offset: u64,
        args: Seq<Argument>,
        callback_accounts: Seq<CallbackAccount>,
    ) -> bool {
        &&& self.computation_offset == computation_offset
        &&& self.comp_def_offset == comp_def_offset_of(circuit)
        &&& argument_list_contents(self.args) == args
        &&& self.callback_accounts@ == callback_accounts
        &&& self.num_callback_txs == 1
        &&& self.cu_price_micro == 0
    }
}

/// A secret record as the cluster returns it: the ciphertexts and the nonce
/// they were encrypted under.
#[derive(Clone, Copy, Debug, PartialEq, Eq)]
pub struct EncryptedOutput<const LEN: usize> {
    pub nonce: u128,
    pub ciphertexts: [[u8; 32]; LEN],
}

/// `LEN` ciphertexts of zero bytes: what an account holds before a callback
/// has written it.
pub open spec fn zeroed<const LEN: usize>() -> [[u8; 32]; LEN] {
    vstd::array::spec_array_fill_for_copy_type::<[u8; 32], LEN>(
        vstd::array::spec_array_fill_for_copy_type::<u8, 32>(0u8),
    )
}

/// The cluster's result did not verify: the signature is not the current
/// cluster key's, or it covers another computation, or the cluster reported
/// that it could not run the circuit. This is a fault of the infrastructure
/// and is never folded into a circuit's own error flag.
#[derive(Clone, Copy, Debug, PartialEq, Eq, Structural)]
pub struct VerificationFailed {}

/// Why a callback did not apply a result.
#[derive(Clone, Copy, Debug, PartialEq, Eq, Structural)]
pub enum Failure {
    /// The result did not verify.
    VerificationFailed,
    /// The result verified and the operation was declined, by the circuit's
    /// error flag or by a check of the callback itself.
    Declined,
}

/// What a callback did. In every case the accounts it is scoped to are
/// unlocked; the transaction succeeds so that the unlock is kept.
#[derive(Debug)]
pub enum CallbackOutcome<Applied, RolledBack> {
    /// The result verified and was written to the accounts.
    Applied(Applied),
    /// Nothing was written, and what the submit had set provisionally
    /// was put back.
    RolledBack(Failure, RolledBack),
}

/// Reported by a callback that applied nothing, where the program has no
/// more specific event for it.
#[derive(Clone, Copy, Debug, PartialEq, Eq)]
pub struct CallbackFailedEvent {
    /// The account whose computation failed.
    pub account: Pubkey,
    pub timestamp: i64,
}

/// A transfer of tokens that the caller is to carry out in the same
/// transaction.
#[derive(Clone, Copy, Debug, PartialEq, Eq)]
pub struct TokenTransfer {
    pub from: Pubkey,
    pub to: Pubkey,
    pub authority: Pubkey,
    pub amount: u64,
}

/// The ledger clock's time as the unsigned number of seconds the accounts
/// store. A time before the epoch wraps around.
pub open spec fn timestamp_of(unix_timestamp: i64) -> u64 {
    if unix_timestamp >= 0 {
        unix_timestamp as u64
    } else {
        (unix_timestamp + 0x1_0000_0000_0000_0000) as u64
    }
}

/// The ledger clock's time as the accounts store it.
pub fn current_timestamp(unix_timestamp: i64) -> (seconds: u64)
    ensures
        seconds == timestamp_of(unix_timestamp),
{
    let seconds: u64 = #[verifier::truncate] (unix_timestamp as u64);
    assert(seconds == if unix_timestamp >= 0 {
        unix_timestamp as u64
    } else {
        (unix_timestamp + 0x1_0000_0000_0000_0000) as u64
    }) by (bit_vector)
        requires
            seconds == unix_timestamp as u64,
    ;
    seconds
}

/// Describes the computation of `circuit` to be queued: the offset of its
/// definition is looked up from its name, the callback takes one transaction
/// and no priority fee is offered.
pub fn queue_computation(
    circuit: &str,
    computation_offset: u64,
    args: ArgumentList,
    callback_accounts: Vec<CallbackAccount>,
) -> (request: ComputationRequest)
    ensures
        request.describes(
            circuit@,
            computation_offset,
            argument_list_contents(args),
            callback_accounts@,
        ),
{
    ComputationRequest {
        computation_offset,
        comp_def_offset: arcium_anchor::comp_def_offset(circuit),
        args,
        callback_accounts,
        num_callback_txs: 1,
        cu_price_micro: 0,
    }
}

/// A callback account that the callback may write to.
pub fn writable(pubkey: Pubkey) -> (account: CallbackAccount)
    ensures
        account == (CallbackAccount { pubkey, is_writable: true }),
{
    CallbackAccount { pubkey, is_writable: true }
}

/// A callback account that the callback may only read.
pub fn read_only(pubkey: Pubkey) -> (account: CallbackAccount)
    ensures
        account == (CallbackAccount { pubkey, is_writable: false }),
{
    CallbackAccount { pubkey, is_writable: false }
}

} // verus!
