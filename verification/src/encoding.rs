//! Arguments as plain values and their encoding for the slots of an
//! operation.
//!
//! A number is sent in the least number of bytes, most significant first; an
//! address, a token identifier and a byte string are sent as they are; a
//! value that may be left out or repeated is sent as no, one or several
//! pieces. The numbers are encoded by the contract framework's codec.

use crate::address::Address;
use crate::catalog::ArgKind;
use crate::error::InteractError;
use multiversx_sc_snippets::imports::{BigUint, StaticApi};
use multiversx_sc_snippets::multiversx_sc::codec::top_encode_to_vec_u8;
use vstd::prelude::*;
use vstd::slice::slice_to_vec;

verus! {

/// The bytes of a number, most significant first, without leading zero bytes:
/// none at all for zero.
pub open spec fn minimal_be(n: nat) -> Seq<u8>
    decreases n,
{
    if n == 0 {
        Seq::empty()
    } else {
        minimal_be(n / 256).push((n % 256) as u8)
    }
}

/// The byte strings that a list of byte vectors holds.
pub open spec fn views(pieces: Seq<Vec<u8>>) -> Seq<Seq<u8>> {
    Seq::new(pieces.len(), |i: int| pieces[i]@)
}

/// The bytes of a list of addresses, one byte string for each.
pub open spec fn address_pieces(addresses: Seq<Address>) -> Seq<Seq<u8>> {
    Seq::new(addresses.len(), |i: int| addresses[i]@)
}

/// The encoded numbers of a list of lock options: for each option its first
/// number, then its second.
pub open spec fn lock_option_pieces(options: Seq<(u64, u64)>) -> Seq<Seq<u8>> {
    Seq::new(
        2 * options.len(),
        |i: int|
            if i % 2 == 0 {
                minimal_be(options[i / 2].0 as nat)
            } else {
                minimal_be(options[i / 2].1 as nat)
            },
    )
}

/// Calls the codec's `top_encode_to_vec_u8` on a `u64`.
///
/// Trusted: the codec encodes the number in the least number of bytes, most
/// significant first, and reports no error for it.
#[verifier::external_body]
fn top_encode_u64(value: u64) -> (bytes: Option<Vec<u8>>)
    ensures
        bytes is Some,
        bytes->0@ == minimal_be(value as nat),
{
    top_encode_to_vec_u8(&value).ok()
}

/// Calls the codec's `top_encode_to_vec_u8` on a `BigUint` made of a `u128`.
///
/// Trusted: the codec encodes the number in the least number of bytes, most
/// significant first, and reports no error for it.
#[verifier::external_body]
fn top_encode_big_uint(value: u128) -> (bytes: Option<Vec<u8>>)
    ensures
        bytes is Some,
        bytes->0@ == minimal_be(value as nat),
{
    top_encode_to_vec_u8(&BigUint::<StaticApi>::from(value)).ok()
}

/// One argument of an operation, as plain values.
#[derive(Debug, PartialEq, Eq)]
pub enum ArgValue {
    /// An unsigned 64-bit number.
    U64(u64),
    /// An unsigned 32-bit number.
    U32(u32),
    /// An unsigned number of any size that a contract takes; here up to 128 bits.
    BigUint(u128),
    /// An account address.
    Address(Address),
    /// The bytes of a token identifier.
    TokenIdentifier(Vec<u8>),
    /// A byte string.
    Bytes(Vec<u8>),
    /// An address, or none.
    OptionalAddress(Option<Address>),
    /// Any number of addresses.
    AddressList(Vec<Address>),
    /// Any number of lock options, each a pair of numbers.
    LockOptions(Vec<(u64, u64)>),
    /// A structured value that the caller has encoded: its pieces are taken as they are.
    Encoded(Vec<Vec<u8>>),
    /// Stands where no value has been supplied yet; it cannot be encoded.
    Placeholder,
}

impl ArgValue {
    /// The byte strings that the value is sent as in a slot of the given type,
    /// `None` where the value is not of that type.
    pub open spec fn encoded_as(self, kind: ArgKind) -> Option<Seq<Seq<u8>>> {
        match (kind, self) {
            (ArgKind::U64, ArgValue::U64(v)) => Some(seq![minimal_be(v as nat)]),
            (ArgKind::U32, ArgValue::U32(v)) => Some(seq![minimal_be(v as nat)]),
            (ArgKind::BigUint, ArgValue::BigUint(v)) => Some(seq![minimal_be(v as nat)]),
            (ArgKind::Address, ArgValue::Address(a)) => Some(seq![a@]),
            (ArgKind::TokenIdentifier, ArgValue::TokenIdentifier(b)) => Some(seq![b@]),
            (ArgKind::Bytes, ArgValue::Bytes(b)) => Some(seq![b@]),
            (ArgKind::OptionalAddress, ArgValue::OptionalAddress(Some(a))) => Some(seq![a@]),
            (ArgKind::OptionalAddress, ArgValue::OptionalAddress(None)) => Some(Seq::empty()),
            (ArgKind::AddressList, ArgValue::AddressList(l)) => Some(address_pieces(l@)),
            (ArgKind::LockOptionList, ArgValue::LockOptions(l)) => Some(lock_option_pieces(l@)),
            (ArgKind::Structured, ArgValue::Encoded(p)) => Some(views(p@)),
            _ => None,
        }
    }
}

/// The encoded argument list of an operation with the given slots: the pieces
/// of all arguments in slot order. `ArgumentMismatch` where the number of
/// arguments is not the number of slots; else `EncodingError` where an
/// argument is not of the type of its slot.
pub open spec fn encoded_arguments(kinds: Seq<ArgKind>, values: Seq<ArgValue>) -> Result<
    Seq<Seq<u8>>,
    InteractError,
> {
    if kinds.len() != values.len() {
        Err(InteractError::ArgumentMismatch)
    } else if exists|i: int|
        0 <= i < values.len() && (#[trigger] values[i]).encoded_as(kinds[i]) is None {
        Err(InteractError::EncodingError)
    } else {
        Ok(Seq::new(values.len(), |i: int| values[i].encoded_as(kinds[i])->0).flatten())
    }
}

/// The pieces of the first `count` arguments, one list for each argument.
spec fn piece_lists(kinds: Seq<ArgKind>, values: Seq<ArgValue>, count: nat) -> Seq<Seq<Seq<u8>>> {
    Seq::new(count, |i: int| values[i].encoded_as(kinds[i])->0)
}

/// A copy of the bytes of an address.
fn address_bytes(address: &Address) -> (bytes: Vec<u8>)
    ensures
        bytes@ == address@,
{
    slice_to_vec(address.bytes.as_slice())
}

/// A copy of a list of byte strings.
fn copy_pieces(pieces: &Vec<Vec<u8>>) -> (copy: Vec<Vec<u8>>)
    ensures
        views(copy@) == views(pieces@),
{
    let mut copy: Vec<Vec<u8>> = Vec::new();
    let mut i: usize = 0;
    while i < pieces.len()
        invariant
            i <= pieces.len(),
            copy.len() == i,
            forall|j: int| 0 <= j < i ==> copy[j]@ == pieces[j]@,
        decreases pieces.len() - i,
    {
        copy.push(slice_to_vec(pieces[i].as_slice()));
        i += 1;
    }
    assert(views(copy@) =~= views(pieces@));
    copy
}

/// Encodes a number of 64 bits.
fn number_piece(value: u64) -> (bytes: Vec<u8>)
    ensures
        bytes@ == minimal_be(value as nat),
{
    top_encode_u64(value).unwrap()
}

/// Encodes a list of addresses, one piece for each.
fn encode_address_list(addresses: &Vec<Address>) -> (pieces: Vec<Vec<u8>>)
    ensures
        views(pieces@) == address_pieces(addresses@),
{
    let mut pieces: Vec<Vec<u8>> = Vec::new();
    let mut i: usize = 0;
    while i < addresses.len()
        invariant
            i <= addresses.len(),
            pieces.len() == i,
            forall|j: int| 0 <= j < i ==> pieces[j]@ == addresses[j]@,
        decreases addresses.len() - i,
    {
        pieces.push(address_bytes(&addresses[i]));
        i += 1;
    }
    assert(views(pieces@) =~= address_pieces(addresses@));
    pieces
}

/// Encodes a list of lock options, two pieces for each.
fn encode_lock_options(options: &Vec<(u64, u64)>) -> (pieces: Vec<Vec<u8>>)
    ensures
        views(pieces@) == lock_option_pieces(options@),
{
    let mut pieces: Vec<Vec<u8>> = Vec::new();
    let mut i: usize = 0;
    while i < options.len()
        invariant
            i <= options.len(),
            pieces.len() == 2 * i,
            forall|j: int|
                0 <= j < 2 * i ==> (#[trigger] pieces[j])@ == lock_option_pieces(options@)[j],
        decreases options.len() - i,
    {
        let option: (u64, u64) = options[i];
        pieces.push(number_piece(option.0));
        pieces.push(number_piece(option.1));
        i += 1;
    }
    assert(views(pieces@) =~= lock_option_pieces(options@));
    pieces
}

/// Encodes one argument for a slot of the given type.
///
/// Fails with `EncodingError` exactly where the value is not of that type.
pub fn encode_argument(kind: ArgKind, value: &ArgValue) -> (encoded: Result<
    Vec<Vec<u8>>,
    InteractError,
>)
    ensures
        match encoded {
            Ok(pieces) => value.encoded_as(kind) == Some(views(pieces@)),
            Err(error) => error == InteractError::EncodingError && value.encoded_as(kind) is None,
        },
{
    let mut pieces: Vec<Vec<u8>> = Vec::new();
    match (kind, value) {
        (ArgKind::U64, ArgValue::U64(v)) => {
            pieces.push(number_piece(*v));
        },
        (ArgKind::U32, ArgValue::U32(v)) => {
            pieces.push(number_piece(*v as u64));
        },
        (ArgKind::BigUint, ArgValue::BigUint(v)) => {
            pieces.push(top_encode_big_uint(*v).unwrap());
        },
        (ArgKind::Address, ArgValue::Address(a)) => {
            pieces.push(address_bytes(a));
        },
        (ArgKind::TokenIdentifier, ArgValue::TokenIdentifier(b)) => {
            pieces.push(slice_to_vec(b.as_slice()));
        },
        (ArgKind::Bytes, ArgValue::Bytes(b)) => {
            pieces.push(slice_to_vec(b.as_slice()));
        },
        (ArgKind::OptionalAddress, ArgValue::OptionalAddress(Some(a))) => {
            pieces.push(address_bytes(a));
        },
        (ArgKind::OptionalAddress, ArgValue::OptionalAddress(None)) => {},
        (ArgKind::AddressList, ArgValue::AddressList(l)) => {
            pieces = encode_address_list(l);
        },
        (ArgKind::LockOptionList, ArgValue::LockOptions(l)) => {
            pieces = encode_lock_options(l);
        },
        (ArgKind::Structured, ArgValue::Encoded(p)) => {
            pieces = copy_pieces(p);
        },
        _ => {
            return Err(InteractError::EncodingError);
        },
    }
    assert(value.encoded_as(kind) is Some);
    assert(views(pieces@) =~= value.encoded_as(kind)->0);
    Ok(pieces)
}

/// Encodes the arguments of an operation against its slots, in slot order.
///
/// Fails with `ArgumentMismatch` where the number of arguments is not the
/// number of slots, else with `EncodingError` where an argument is not of the
/// type of its slot.
pub fn encode_arguments(kinds: &Vec<ArgKind>, values: &Vec<ArgValue>) -> (encoded: Result<
    Vec<Vec<u8>>,
    InteractError,
>)
    ensures
        match encoded {
            Ok(pieces) => encoded_arguments(kinds@, values@) == Ok::<_, InteractError>(
                views(pieces@),
            ),
            Err(error) => encoded_arguments(kinds@, values@) == Err::<Seq<Seq<u8>>, _>(error),
        },
{
    if kinds.len() != values.len() {
        return Err(InteractError::ArgumentMismatch);
    }
    let mut all: Vec<Vec<u8>> = Vec::new();
    let mut i: usize = 0;
    proof {
        assert(piece_lists(kinds@, values@, 0).flatten() =~= Seq::<Seq<u8>>::empty());
        assert(views(all@) =~= Seq::<Seq<u8>>::empty());
    }
    while i < values.len()
        invariant
            i <= values.len(),
            kinds.len() == values.len(),
            forall|j: int| 0 <= j < i ==> (#[trigger] values[j]).encoded_as(kinds[j]) is Some,
            views(all@) == piece_lists(kinds@, values@, i as nat).flatten(),
        decreases values.len() - i,
    {
        let mut pieces = match encode_argument(kinds[i], &values[i]) {
            Ok(pieces) => pieces,
            Err(error) => {
                return Err(error);
            },
        };
        proof {
            let before = piece_lists(kinds@, values@, i as nat);
            let added = values@[i as int].encoded_as(kinds@[i as int])->0;
            assert(piece_lists(kinds@, values@, (i + 1) as nat) =~= before.push(added));
            before.lemma_flatten_push(added);
            assert(views(all@ + pieces@) =~= views(all@) + views(pieces@));
        }
        all.append(&mut pieces);
        i += 1;
    }
    assert(piece_lists(kinds@, values@, values.len() as nat) =~= Seq::new(
        values@.len(),
        |i: int| values@[i].encoded_as(kinds@[i])->0,
    ));
    Ok(all)
}

} // verus!
