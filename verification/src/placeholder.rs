//! Stand-ins for the arguments and the payment of a command for which
//! nobody has supplied any.
//!
//! A number stands in as zero and a byte string as empty. An address has no
//! stand-in that could be sent: its slot holds the placeholder, and a
//! command with such a slot is given up when its arguments are encoded.

use crate::catalog::{ArgKind, PaymentRule};
use crate::encoding::{encoded_arguments, ArgValue};
use crate::error::InteractError;
use crate::request::Payment;
use vstd::prelude::*;

verus! {

impl ArgValue {
    /// The value stands in for an argument of the given type that nobody has
    /// supplied: zero for a number, no bytes for a token identifier or a byte
    /// string, one option of two zeros for a list of lock options, and the
    /// placeholder for everything else.
    pub open spec fn is_stand_in_for(self, kind: ArgKind) -> bool {
        match kind {
            ArgKind::U64 => self == ArgValue::U64(0),
            ArgKind::U32 => self == ArgValue::U32(0),
            ArgKind::BigUint => self == ArgValue::BigUint(0),
            ArgKind::TokenIdentifier => self matches ArgValue::TokenIdentifier(b) && b@.len() == 0,
            ArgKind::Bytes => self matches ArgValue::Bytes(b) && b@.len() == 0,
            ArgKind::LockOptionList => self matches ArgValue::LockOptions(l) && l@ == seq![
                (0u64, 0u64),
            ],
            ArgKind::Address
            | ArgKind::OptionalAddress
            | ArgKind::AddressList
            | ArgKind::Structured => self == ArgValue::Placeholder,
        }
    }

    /// The stand-in for an argument of the given type.
    pub fn stand_in(kind: ArgKind) -> (value: ArgValue)
        ensures
            value.is_stand_in_for(kind),
    {
        match kind {
            ArgKind::U64 => ArgValue::U64(0),
            ArgKind::U32 => ArgValue::U32(0),
            ArgKind::BigUint => ArgValue::BigUint(0),
            ArgKind::TokenIdentifier => ArgValue::TokenIdentifier(Vec::new()),
            ArgKind::Bytes => ArgValue::Bytes(Vec::new()),
            ArgKind::LockOptionList => {
                let mut options: Vec<(u64, u64)> = Vec::new();
                options.push((0, 0));
                assert(options@ =~= seq![(0u64, 0u64)]);
                ArgValue::LockOptions(options)
            },
            ArgKind::Address
            | ArgKind::OptionalAddress
            | ArgKind::AddressList
            | ArgKind::Structured => ArgValue::Placeholder,
        }
    }
}

/// A stand-in can be encoded for a slot of this type.
pub open spec fn has_encodable_stand_in(kind: ArgKind) -> bool {
    match kind {
        ArgKind::U64
        | ArgKind::U32
        | ArgKind::BigUint
        | ArgKind::TokenIdentifier
        | ArgKind::Bytes
        | ArgKind::LockOptionList => true,
        _ => false,
    }
}

/// The values are the stand-ins for the slots, one for each slot in order.
pub open spec fn are_stand_ins(kinds: Seq<ArgKind>, values: Seq<ArgValue>) -> bool {
    &&& values.len() == kinds.len()
    &&& forall|i: int| 0 <= i < kinds.len() ==> (#[trigger] values[i]).is_stand_in_for(kinds[i])
}

/// The stand-ins for the arguments of an operation with the given slots.
pub fn placeholder_arguments(kinds: &Vec<ArgKind>) -> (values: Vec<ArgValue>)
    ensures
        are_stand_ins(kinds@, values@),
{
    let mut values: Vec<ArgValue> = Vec::new();
    let mut i: usize = 0;
    while i < kinds.len()
        invariant
            i <= kinds.len(),
            values.len() == i,
            forall|j: int| 0 <= j < i ==> (#[trigger] values[j]).is_stand_in_for(kinds[j]),
        decreases kinds.len() - i,
    {
        values.push(ArgValue::stand_in(kinds[i]));
        i += 1;
    }
    values
}

/// The stand-in for the payment of an operation: nothing where it takes
/// none, else an amount of zero, of a token without a name where it takes a token.
pub open spec fn is_stand_in_payment(payment: Option<Payment>, rule: PaymentRule) -> bool {
    match rule {
        PaymentRule::NotPayable => payment is None,
        PaymentRule::Egld => payment == Some(Payment::Egld { amount: 0 }),
        PaymentRule::SingleToken => payment matches Some(
            Payment::Token { identifier, nonce, amount },
        ) && identifier@.len() == 0 && nonce == 0 && amount == 0,
    }
}

/// The stand-in for the payment of an operation.
pub fn placeholder_payment(rule: PaymentRule) -> (payment: Option<Payment>)
    ensures
        is_stand_in_payment(payment, rule),
{
    match rule {
        PaymentRule::NotPayable => None,
        PaymentRule::Egld => Some(Payment::Egld { amount: 0 }),
        PaymentRule::SingleToken => Some(
            Payment::Token { identifier: Vec::new(), nonce: 0, amount: 0 },
        ),
    }
}

/// Stand-ins are never too many or too few, and they can be encoded exactly
/// where every slot has a stand-in that can.
pub proof fn lemma_stand_ins_fit(kinds: Seq<ArgKind>, values: Seq<ArgValue>)
    requires
        are_stand_ins(kinds, values),
    ensures
        encoded_arguments(kinds, values) != Err::<Seq<Seq<u8>>, _>(
            InteractError::ArgumentMismatch,
        ),
        encoded_arguments(kinds, values) is Ok <==> forall|i: int|
            0 <= i < kinds.len() ==> has_encodable_stand_in(#[trigger] kinds[i]),
{
    if forall|i: int| 0 <= i < kinds.len() ==> has_encodable_stand_in(#[trigger] kinds[i]) {
        assert forall|i: int| 0 <= i < values.len() implies (#[trigger] values[i]).encoded_as(
            kinds[i],
        ) is Some by {
            assert(has_encodable_stand_in(kinds[i]));
            assert(values[i].is_stand_in_for(kinds[i]));
        }
    } else {
        let i = choose|i: int| 0 <= i < kinds.len() && !has_encodable_stand_in(#[trigger] kinds[i]);
        assert(values[i].is_stand_in_for(kinds[i]));
        assert(values[i].encoded_as(kinds[i]) is None);
    }
}

} // verus!
