//! Requests: one operation with its sender, receiver, encoded arguments and
//! payment, ready to be submitted without another look at the catalog.

use crate::address::{Address, Bech32Address};
use crate::catalog::{CallKind, Descriptor, ResultShape};
use crate::encoding::{encode_arguments, encoded_arguments, views, ArgValue};
use crate::error::InteractError;
use vstd::prelude::*;

verus! {

/// What is paid along with an operation.
#[derive(Debug, PartialEq, Eq)]
pub enum Payment {
    /// An amount of the native currency.
    Egld { amount: u128 },
    /// A transfer of one token: its identifier, the index of its instance, and the amount.
    Token { identifier: Vec<u8>, nonce: u64, amount: u128 },
}

/// Where a request goes.
#[derive(Debug, PartialEq, Eq)]
pub enum Receiver {
    /// A new account is to be created, with this code.
    NewAccount { code: Vec<u8> },
    /// The contract at this address.
    Contract(Bech32Address),
}

/// One operation with everything that is needed to submit it.
#[derive(Debug, PartialEq, Eq)]
pub struct BuiltRequest {
    /// How the request reaches the contract.
    pub call_kind: CallKind,
    /// The address that the request is sent from.
    pub sender: Address,
    /// Where the request goes.
    pub receiver: Receiver,
    /// The name of the function that the contract runs.
    pub function: String,
    /// The encoded arguments, in the order in which the contract takes them.
    pub arguments: Vec<Vec<u8>>,
    /// What is paid along, if anything: at most one transfer.
    pub payment: Option<Payment>,
    /// What is expected to come back.
    pub result: ResultShape,
}

/// Builds the request for one operation.
///
/// The receiver is a new account exactly for an operation that creates one,
/// and a read-only operation is given no payment. Fails with
/// `ArgumentMismatch` where the number of arguments is not the number of
/// slots of the operation, else with `EncodingError` where an argument is not
/// of the type of its slot.
pub fn build(
    descriptor: &Descriptor,
    sender: Address,
    receiver: Receiver,
    raw_args: &Vec<ArgValue>,
    payment: Option<Payment>,
) -> (built: Result<BuiltRequest, InteractError>)
    requires
        descriptor.call_kind is Create <==> receiver is NewAccount,
        descriptor.call_kind is ReadOnly ==> payment is None,
    ensures
        match built {
            Ok(request) => {
                &&& encoded_arguments(descriptor.arguments@, raw_args@) == Ok::<_, InteractError>(
                    views(request.arguments@),
                )
                &&& request.call_kind == descriptor.call_kind
                &&& request.sender == sender
                &&& request.receiver == receiver
                &&& request.function@ == descriptor.command.endpoint_of()
                &&& request.payment == payment
                &&& request.result == descriptor.result
            },
            Err(error) => encoded_arguments(descriptor.arguments@, raw_args@) == Err::<
                Seq<Seq<u8>>,
                _,
            >(error),
        },
{
    let arguments = match encode_arguments(&descriptor.arguments, raw_args) {
        Ok(arguments) => arguments,
        Err(error) => {
            return Err(error);
        },
    };
    Ok(
        BuiltRequest {
            call_kind: descriptor.call_kind,
            sender,
            receiver,
            function: descriptor.command.endpoint().to_owned(),
            arguments,
            payment,
            result: descriptor.result,
        },
    )
}

} // verus!
