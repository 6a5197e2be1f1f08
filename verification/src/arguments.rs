//! The ordered argument bundle of a computation request.
//!
//! The compute cluster reads arguments by position, not by name, so the order
//! in which a bundle lists them is part of every contract here. A bundle
//! opens with the encryption context (public key, then nonce) and goes on
//! with the encrypted operands in the order the circuit declares them.

use arcium_anchor::arg_builder::ArgBuilder;
use arcium_anchor::prelude::ArgumentList;
use vstd::prelude::*;

verus! {

/// A fixed-size ciphertext of one 64-bit integer or one boolean.
pub type EncryptedOperand = [u8; 32];

/// What the operands of one request were encrypted under.
#[derive(Clone, Copy, Debug, PartialEq, Eq)]
pub struct EncryptionContext {
    /// X25519 public key that identifies the encryption scheme instance.
    pub public_key: [u8; 32],
    /// Nonce of the request.
    pub nonce: u128,
}

/// One positional argument of a request.
#[derive(Clone, Copy, Debug, PartialEq, Eq)]
pub enum Argument {
    /// The X25519 public key of the encryption context.
    X25519Pubkey([u8; 32]),
    /// A 128-bit value in the clear: the nonce.
    PlaintextU128(u128),
    /// The ciphertext of a 64-bit integer or a boolean.
    EncryptedU64(EncryptedOperand),
}

/// Most arguments that one list can take. The list refers to each value by a
/// one-byte index, and a single argument may occupy two places in its tables.
pub const MAX_ARGUMENTS: usize = 128;

/// The bundle for `operands` under `context`: public key, nonce, then the
/// operands in their order.
pub open spec fn argument_bundle(context: EncryptionContext, operands: Seq<EncryptedOperand>) -> Seq<
    Argument,
> {
    seq![Argument::X25519Pubkey(context.public_key), Argument::PlaintextU128(context.nonce)]
        + Seq::new(operands.len(), |index: int| Argument::EncryptedU64(operands[index]))
}

/// Lays out the arguments of a request in the order the cluster reads them.
pub fn bundle_arguments(context: &EncryptionContext, operands: &Vec<EncryptedOperand>) -> (bundle:
    Vec<Argument>)
    ensures
        bundle@ == argument_bundle(*context, operands@),
{
    let mut bundle: Vec<Argument> = Vec::new();
    bundle.push(Argument::X25519Pubkey(context.public_key));
    bundle.push(Argument::PlaintextU128(context.nonce));
    let mut index: usize = 0;
    while index < operands.len()
        invariant
            index <= operands.len(),
            bundle@ == argument_bundle(*context, operands@.take(index as int)),
        decreases operands.len() - index,
    {
        bundle.push(Argument::EncryptedU64(operands[index]));
        index += 1;
    }
    assert(operands@.take(index as int) == operands@);
    bundle
}

/// `arcium_anchor::arg_builder::ArgBuilder`, carried as an opaque value.
#[verifier::external_type_specification]
#[verifier::external_body]
pub struct ExArgBuilder(ArgBuilder);

/// The `ArgumentList` that `ArgBuilder::build` returns, carried as an opaque
/// value.
#[verifier::external_type_specification]
#[verifier::external_body]
pub struct ExArgumentList(ArgumentList);

/// The arguments that an `ArgBuilder` holds, in the order they were added:
/// each of its argument references read together with the value it points at.
/// The builders made here hold arguments of the three kinds of [`Argument`]
/// only; what the name is on a builder that holds another kind is left open.
pub uninterp spec fn builder_arguments(builder: ArgBuilder) -> Seq<Argument>;

/// The arguments that an `ArgumentList` holds, in order: each of its
/// argument references read together with the value it points at.
pub uninterp spec fn listed_arguments(list: ArgumentList) -> Seq<Argument>;

/// `ArgBuilder::new` starts a builder that holds no argument.
pub assume_specification[ ArgBuilder::new ]() -> (builder: ArgBuilder)
    ensures
        builder_arguments(builder) == Seq::<Argument>::empty(),
;

/// `ArgBuilder::x25519_pubkey` stores `value` and appends a public-key
/// argument that refers to it. Claimed of builders below the size at which
/// the one-byte index of a reference could wrap.
pub assume_specification[ ArgBuilder::x25519_pubkey ](builder: ArgBuilder, value: [u8; 32]) -> (extended:
    ArgBuilder)
    requires
        builder_arguments(builder).len() < MAX_ARGUMENTS,
    ensures
        builder_arguments(extended) == builder_arguments(builder).push(
            Argument::X25519Pubkey(value),
        ),
;

/// `ArgBuilder::plaintext_u128` stores `value` and appends a plaintext
/// 128-bit argument that refers to it. Claimed of builders below the size at
/// which the one-byte index of a reference could wrap.
pub assume_specification[ ArgBuilder::plaintext_u128 ](builder: ArgBuilder, value: u128) -> (extended:
    ArgBuilder)
    requires
        builder_arguments(builder).len() < MAX_ARGUMENTS,
    ensures
        builder_arguments(extended) == builder_arguments(builder).push(
            Argument::PlaintextU128(value),
        ),
;

/// `ArgBuilder::encrypted_u64` stores `value` and appends an encrypted
/// 64-bit argument that refers to it. Claimed of builders below the size at
/// which the one-byte index of a reference could wrap.
pub assume_specification[ ArgBuilder::encrypted_u64 ](builder: ArgBuilder, value: [u8; 32]) -> (extended:
    ArgBuilder)
    requires
        builder_arguments(builder).len() < MAX_ARGUMENTS,
    ensures
        builder_arguments(extended) == builder_arguments(builder).push(
            Argument::EncryptedU64(value),
        ),
;

/// `ArgBuilder::build` hands out the list that the builder has filled,
/// unchanged.
pub assume_specification[ ArgBuilder::build ](builder: ArgBuilder) -> (list: ArgumentList)
    ensures
        listed_arguments(list) == builder_arguments(builder),
;

/// Encodes a bundle as the argument list that is handed to the cluster, or
/// returns `None` for a bundle of more than [`MAX_ARGUMENTS`] arguments, which
/// a list cannot address.
pub fn encode_arguments(bundle: &Vec<Argument>) -> (encoded: Option<ArgumentList>)
    ensures
        encoded is Some <==> bundle@.len() <= MAX_ARGUMENTS,
        encoded matches Some(list) ==> listed_arguments(list) == bundle@,
{
    if bundle.len() > MAX_ARGUMENTS {
        return None;
    }
    let mut builder = ArgBuilder::new();
    let mut index: usize = 0;
    while index < bundle.len()
        invariant
            index <= bundle.len() <= MAX_ARGUMENTS,
            builder_arguments(builder) == bundle@.take(index as int),
        decreases bundle.len() - index,
    {
        builder =
        match bundle[index] {
            Argument::X25519Pubkey(key) => builder.x25519_pubkey(key),
            Argument::PlaintextU128(value) => builder.plaintext_u128(value),
            Argument::EncryptedU64(ciphertext) => builder.encrypted_u64(ciphertext),
        };
        assert(bundle@.take(index + 1) == bundle@.take(index as int).push(bundle@[index as int]));
        index += 1;
    }
    assert(bundle@.take(index as int) == bundle@);
    Some(builder.build())
}

} // verus!
