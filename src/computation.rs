//! Turns the positional arguments that the state machine decides into the
//! argument list that a computation request carries, with arcium's
//! `ArgBuilder`.
use vstd::prelude::*;
use anchor_lang::prelude::Pubkey;
use arcium_anchor::prelude::{ArgBuilder, ArgumentList};
use crate::private_voting::Argument;

verus! {

#[verifier::external_type_specification]
#[verifier::external_body]
pub struct ExArgBuilder(ArgBuilder);

#[verifier::external_type_specification]
#[verifier::external_body]
pub struct ExArgumentList(ArgumentList);

/// The arguments pushed onto a builder so far, in order.
pub uninterp spec fn builder_args(b: ArgBuilder) -> Seq<Argument>;

/// The arguments that a built list holds, in order.
pub uninterp spec fn list_args(l: ArgumentList) -> Seq<Argument>;

/// Relies on `ArgBuilder::new`: a builder that holds no argument.
#[verifier::external_body]
fn empty_builder() -> (r: ArgBuilder)
    ensures
        builder_args(r) == Seq::<Argument>::empty(),
{
    ArgBuilder::new()
}

/// Relies on `ArgBuilder::plaintext_u128`: appends one plaintext 128-bit
/// argument. The argument refers to its value by a one-byte index, which
/// stays exact while fewer than 256 arguments are held.
#[verifier::external_body]
fn push_plaintext_u128(b: ArgBuilder, value: u128) -> (r: ArgBuilder)
    requires
        builder_args(b).len() < 256,
    ensures
        builder_args(r) == builder_args(b).push(Argument::PlaintextU128(value)),
{
    b.plaintext_u128(value)
}

/// Relies on `ArgBuilder::x25519_pubkey`: appends one x25519 public key,
/// referred to by a one-byte index (exact below 256 arguments).
#[verifier::external_body]
fn push_x25519_pubkey(b: ArgBuilder, key: [u8; 32]) -> (r: ArgBuilder)
    requires
        builder_args(b).len() < 256,
    ensures
        builder_args(r) == builder_args(b).push(Argument::X25519Pubkey(key)),
{
    b.x25519_pubkey(key)
}

/// Relies on `ArgBuilder::encrypted_u64`: appends one ciphertext of a 64-bit
/// value, referred to by a one-byte index (exact below 256 arguments).
#[verifier::external_body]
fn push_encrypted_u64(b: ArgBuilder, ciphertext: [u8; 32]) -> (r: ArgBuilder)
    requires
        builder_args(b).len() < 256,
    ensures
        builder_args(r) == builder_args(b).push(Argument::EncryptedU64(ciphertext)),
{
    b.encrypted_u64(ciphertext)
}

/// Relies on `ArgBuilder::account`: appends a reference to `length` bytes of
/// the account at `key`, from byte `offset`, referred to by a one-byte index
/// (exact below 256 arguments).
#[verifier::external_body]
fn push_account(b: ArgBuilder, key: [u8; 32], offset: u32, length: u32) -> (r: ArgBuilder)
    requires
        builder_args(b).len() < 256,
    ensures
        builder_args(r) == builder_args(b).push(Argument::Account { key, offset, length }),
{
    b.account(Pubkey::new_from_array(key), offset, length)
}

/// Relies on `ArgBuilder::build`: the list holds the builder's arguments.
#[verifier::external_body]
fn finish(b: ArgBuilder) -> (r: ArgumentList)
    ensures
        list_args(r) == builder_args(b),
{
    b.build()
}

/// Assembles `args`, in order, into the argument list of a computation
/// request. The list refers to each value by a one-byte index, so it holds
/// at most 256 arguments.
pub fn build_argument_list(args: &Vec<Argument>) -> (r: ArgumentList)
    requires
        args.len() <= 256,
    ensures
        list_args(r) == args@,
{
    let mut b = empty_builder();
    let mut i: usize = 0;
    while i < args.len()
        invariant
            0 <= i <= args.len(),
            args.len() <= 256,
            builder_args(b) == args@.subrange(0, i as int),
        decreases args.len() - i,
    {
        b = match args[i] {
            Argument::PlaintextU128(v) => push_plaintext_u128(b, v),
            Argument::X25519Pubkey(k) => push_x25519_pubkey(b, k),
            Argument::EncryptedU64(c) => push_encrypted_u64(b, c),
            Argument::Account { key, offset, length } => push_account(b, key, offset, length),
        };
        assert(args@.subrange(0, i + 1) =~= args@.subrange(0, i as int).push(args@[i as int]));
        i = i + 1;
    }
    assert(args@.subrange(0, args.len() as int) =~= args@);
    finish(b)
}

} // verus!
