//! The argument list of a queued computation.
//!
//! The list is assembled by `arcium_anchor::ArgBuilder` and handed to the
//! cluster as an `ArgumentList`. Both are opaque here. What they hold is
//! described as a sequence of [`Argument`]s: the arguments in the order in
//! which they were added, each with its value.
//!
//! Inside, a list keeps most values in pools, by kind, and refers to them by
//! position. A position is one byte, so a pool holds 256 values at most and
//! the builder panics on the next one. The contracts below keep every pool
//! short of that.
//!
//! Everything in this file from the declarations of the two types on is
//! taken on trust from the builder's source: the verifier sees the
//! contracts, not the bodies.

use vstd::prelude::*;
use arcium_anchor::prelude::ArgumentList;
use arcium_anchor::ArgBuilder;
use crate::pubkey::Pubkey;

verus! {

/// One argument of a computation. Only the kinds that this library puts
/// into a list are named.
pub enum Argument {
    PlaintextBool(bool),
    PlaintextU64(u64),
    PlaintextU128(u128),
    /// The ciphertext of a `u16`.
    EncryptedU16(Seq<u8>),
    /// The ciphertext of a `u64`.
    EncryptedU64(Seq<u8>),
    /// The x25519 public key that the ciphertexts after it are encrypted
    /// for.
    X25519Pubkey(Seq<u8>),
    /// `length` bytes of the data of the account `pubkey`, from `offset` on,
    /// read as ciphertext.
    Account { pubkey: Seq<u8>, offset: u32, length: u32 },
}

#[verifier::external_type_specification]
#[verifier::external_body]
pub struct ExArgBuilder(ArgBuilder);

#[verifier::external_type_specification]
#[verifier::external_body]
pub struct ExArgumentList(ArgumentList);

/// The arguments a builder holds so far, in the order in which they were
/// added, each with the value that its entry in the list stands for.
pub uninterp spec fn builder_arguments(builder: ArgBuilder) -> Seq<Argument>;

/// The number of values in the fullest pool of a builder.
pub uninterp spec fn builder_fullest_pool(builder: ArgBuilder) -> nat;

/// The arguments a finished list holds, in order, each with its value.
pub uninterp spec fn argument_list_contents(list: ArgumentList) -> Seq<Argument>;

/// The offset under which a circuit's definition is registered: the first
/// four bytes, little-endian, of the SHA-256 digest of the circuit's name.
pub uninterp spec fn comp_def_offset_of(name: Seq<char>) -> u32;

/// `arcium_anchor::comp_def_offset`. It hashes the name it is given and
/// nothing else, so the same name always gives the same offset; the contract
/// names that offset and claims no more of it.
pub assume_specification[ arcium_anchor::comp_def_offset ](conf_ix_name: &str) -> (offset: u32)
    ensures
        offset == comp_def_offset_of(conf_ix_name@),
;

/// `ArgBuilder::new`: a builder whose list and pools are all empty.
#[verifier::external_body]
pub(crate) fn new_builder() -> (builder: ArgBuilder)
    ensures
        builder_arguments(builder) == Seq::<Argument>::empty(),
        builder_fullest_pool(builder) == 0,
{
    ArgBuilder::new()
}

/// `ArgBuilder::plaintext_bool`: appends the value itself to the list and
/// touches no pool.
#[verifier::external_body]
pub(crate) fn plaintext_bool(builder: ArgBuilder, value: bool) -> (extended: ArgBuilder)
    ensures
        builder_arguments(extended) == builder_arguments(builder).push(
            Argument::PlaintextBool(value),
        ),
        builder_fullest_pool(extended) == builder_fullest_pool(builder),
{
    builder.plaintext_bool(value)
}

/// `ArgBuilder::plaintext_u64`: appends the value to the pool of numbers and
/// its position there to the list. The builder panics on a position over
/// 255, which the precondition excludes.
#[verifier::external_body]
pub(crate) fn plaintext_u64(builder: ArgBuilder, value: u64) -> (extended: ArgBuilder)
    requires
        builder_fullest_pool(builder) < 256,
    ensures
        builder_arguments(extended) == builder_arguments(builder).push(
            Argument::PlaintextU64(value),
        ),
        builder_fullest_pool(extended) <= builder_fullest_pool(builder) + 1,
{
    builder.plaintext_u64(value)
}

/// `ArgBuilder::plaintext_u128`: appends the value to the pool of 128-bit
/// values and its position there to the list. The builder panics on a
/// position over 255, which the precondition excludes.
#[verifier::external_body]
pub(crate) fn plaintext_u128(builder: ArgBuilder, value: u128) -> (extended: ArgBuilder)
    requires
        builder_fullest_pool(builder) < 256,
    ensures
        builder_arguments(extended) == builder_arguments(builder).push(
            Argument::PlaintextU128(value),
        ),
        builder_fullest_pool(extended) <= builder_fullest_pool(builder) + 1,
{
    builder.plaintext_u128(value)
}

/// `ArgBuilder::encrypted_u16`: appends the ciphertext to the pool of byte
/// arrays and its position there to the list. The builder panics on a
/// position over 255, which the precondition excludes.
#[verifier::external_body]
pub(crate) fn encrypted_u16(builder: ArgBuilder, value: [u8; 32]) -> (extended: ArgBuilder)
    requires
        builder_fullest_pool(builder) < 256,
    ensures
        builder_arguments(extended) == builder_arguments(builder).push(
            Argument::EncryptedU16(value@),
        ),
        builder_fullest_pool(extended) <= builder_fullest_pool(builder) + 1,
{
    builder.encrypted_u16(value)
}

/// `ArgBuilder::encrypted_u64`: appends the ciphertext to the pool of byte
/// arrays and its position there to the list. The builder panics on a
/// position over 255, which the precondition excludes.
#[verifier::external_body]
pub(crate) fn encrypted_u64(builder: ArgBuilder, value: [u8; 32]) -> (extended: ArgBuilder)
    requires
        builder_fullest_pool(builder) < 256,
    ensures
        builder_arguments(extended) == builder_arguments(builder).push(
            Argument::EncryptedU64(value@),
        ),
        builder_fullest_pool(extended) <= builder_fullest_pool(builder) + 1,
{
    builder.encrypted_u64(value)
}

/// `ArgBuilder::x25519_pubkey`: appends the key to the pool of byte arrays
/// and its position there to the list. The builder panics on a position over
/// 255, which the precondition excludes.
#[verifier::external_body]
pub(crate) fn x25519_pubkey(builder: ArgBuilder, value: [u8; 32]) -> (extended: ArgBuilder)
    requires
        builder_fullest_pool(builder) < 256,
    ensures
        builder_arguments(extended) == builder_arguments(builder).push(
            Argument::X25519Pubkey(value@),
        ),
        builder_fullest_pool(extended) <= builder_fullest_pool(builder) + 1,
{
    builder.x25519_pubkey(value)
}

/// `ArgBuilder::account`: appends the account's address, offset and length
/// to the pool of accounts and its position there to the list. The builder
/// panics on a position over 255, which the precondition excludes. The
/// address is rebuilt from its bytes by `Pubkey::new_from_array`, which
/// stores them as they are.
#[verifier::external_body]
pub(crate) fn account(builder: ArgBuilder, pubkey: Pubkey, offset: u32, length: u32) -> (extended:
    ArgBuilder)
    requires
        builder_fullest_pool(builder) < 256,
    ensures
        builder_arguments(extended) == builder_arguments(builder).push(
            Argument::Account { pubkey: pubkey.bytes@, offset, length },
        ),
        builder_fullest_pool(extended) <= builder_fullest_pool(builder) + 1,
{
    builder.account(anchor_lang::prelude::Pubkey::new_from_array(pubkey.bytes), offset, length)
}

/// `ArgBuilder::build`: hands out the list that the builder holds, as it is.
#[verifier::external_body]
pub(crate) fn build(builder: ArgBuilder) -> (list: ArgumentList)
    ensures
        argument_list_contents(list) == builder_arguments(builder),
{
    builder.build()
}

} // verus!
