//! The errors with which a command is given up.

use vstd::prelude::*;

verus! {

/// Why a command was given up before anything was sent to the gateway.
#[derive(Clone, Copy, Debug, PartialEq, Eq, Structural)]
pub enum InteractError {
    /// The command name is not in the catalog.
    UnknownCommand,
    /// A command other than `deploy` was asked for while no contract address is known.
    NoContractDeployed,
    /// A text is not a checksummed address in its human-readable form.
    MalformedAddress,
    /// A stored record exists but could not be read as one.
    CorruptState,
    /// The number of arguments differs from the number of slots of the operation.
    ArgumentMismatch,
    /// An argument cannot be encoded as the type of its slot.
    EncodingError,
}

impl InteractError {
    /// A fixed one-line description of the error.
    pub fn message(&self) -> (text: &'static str)
        ensures
            text@ == Self::message_of(*self),
    {
        match self {
            InteractError::UnknownCommand => "unknown command",
            InteractError::NoContractDeployed => "no known contract, deploy first",
            InteractError::MalformedAddress => "malformed address",
            InteractError::CorruptState => "corrupt state record",
            InteractError::ArgumentMismatch => "argument count does not match the operation",
            InteractError::EncodingError => "argument cannot be encoded",
        }
    }

    /// The description that `message` returns.
    pub open spec fn message_of(error: InteractError) -> Seq<char> {
        match error {
            InteractError::UnknownCommand => "unknown command"@,
            InteractError::NoContractDeployed => "no known contract, deploy first"@,
            InteractError::MalformedAddress => "malformed address"@,
            InteractError::CorruptState => "corrupt state record"@,
            InteractError::ArgumentMismatch => "argument count does not match the operation"@,
            InteractError::EncodingError => "argument cannot be encoded"@,
        }
    }
}

} // verus!
