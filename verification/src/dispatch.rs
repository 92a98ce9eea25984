//! The dispatcher: one command at a time, from its name to its request and
//! from its outcome to what is shown.
//!
//! A dispatcher is idle or has one command in flight. `begin` takes a
//! command while idle; where it builds a request the command is in flight
//! until `complete` takes its outcome. Submitting the request is the
//! caller's part.

use crate::address::{address_text, Address, Bech32Address};
use crate::catalog::{lookup, Command, PaymentRule};
use crate::encoding::{encoded_arguments, views, ArgValue};
use crate::error::InteractError;
use crate::request::{build, BuiltRequest, Payment, Receiver};
use crate::state::State;
use vstd::prelude::*;
use vstd::slice::slice_to_vec;

verus! {

/// Whether a command is in flight.
#[derive(Clone, Copy, Debug, PartialEq, Eq, Structural)]
pub enum Phase {
    /// Waiting for a command.
    Idle,
    /// The request of this command has been handed out, and its outcome is awaited.
    Executing(Command),
}

/// What the gateway reports for a request.
#[derive(Debug, PartialEq, Eq)]
pub enum Outcome {
    /// An account was created at this address.
    NewAddress(Address),
    /// The contract returned these values.
    Values(Vec<Vec<u8>>),
    /// The request failed, on the way or on chain.
    Fault(String),
}

impl Outcome {
    /// The outcome of a call from what the gateway answered: the returned
    /// values where the status is zero, else the fault with its message.
    pub fn of_call(status: u64, message: String, values: Vec<Vec<u8>>) -> (outcome: Outcome)
        ensures
            outcome == (if status == 0 {
                Outcome::Values(values)
            } else {
                Outcome::Fault(message)
            }),
    {
        if status == 0 {
            Outcome::Values(values)
        } else {
            Outcome::Fault(message)
        }
    }

    /// The outcome of a deploy from what the gateway answered: the new
    /// address where the status is zero and an address came back, else the
    /// fault with its message.
    pub fn of_deploy(status: u64, message: String, created: Option<Address>) -> (outcome: Outcome)
        ensures
            outcome == (match created {
                Some(address) if status == 0 => Outcome::NewAddress(address),
                _ => Outcome::Fault(message),
            }),
    {
        match created {
            Some(address) if status == 0 => Outcome::NewAddress(address),
            _ => Outcome::Fault(message),
        }
    }
}

/// What is shown for a finished command.
#[derive(Debug, PartialEq, Eq)]
pub enum Report {
    /// The address of the new account, with its human-readable text.
    NewAddress(Bech32Address),
    /// The values that the contract returned.
    Values(Vec<Vec<u8>>),
    /// The fault, as it was reported.
    Fault(String),
}

/// Turns command names into requests for one contract, and keeps the record
/// of where that contract is.
pub struct ContractInteract {
    wallet_address: Address,
    contract_code: Vec<u8>,
    state: State,
    phase: Phase,
}

/// The payment that goes with an operation: the one supplied where the
/// operation takes a payment, none where it takes none.
pub open spec fn payment_for(rule: PaymentRule, supplied: Option<Payment>) -> Option<Payment> {
    if rule is NotPayable {
        None
    } else {
        supplied
    }
}

/// Why a command is given up before a request is built, `None` where a
/// request is built: the name is unknown; or the command is not `deploy` and
/// no contract address is known; or the arguments do not fit the operation.
pub open spec fn refusal(name: Seq<char>, known: Option<Seq<char>>, raw_args: Seq<ArgValue>)
    -> Option<InteractError> {
    match Command::parsed(name) {
        None => Some(InteractError::UnknownCommand),
        Some(command) => if command != Command::Deploy && known is None {
            Some(InteractError::NoContractDeployed)
        } else {
            match encoded_arguments(command.argument_kinds_of(), raw_args) {
                Err(error) => Some(error),
                Ok(_) => None,
            }
        },
    }
}

/// The contract address that is known when a command has finished: the new
/// one where the command was `deploy` and an account was created, else the
/// one known before.
pub open spec fn known_after(phase: Phase, known: Option<Seq<char>>, outcome: Outcome) -> Option<
    Seq<char>,
> {
    match (phase, outcome) {
        (Phase::Executing(Command::Deploy), Outcome::NewAddress(address)) => Some(
            address_text(address@),
        ),
        _ => known,
    }
}

/// The request goes where the command has to go: to a new account with the
/// given code for `deploy`, else to the known contract.
pub open spec fn goes_to(
    receiver: Receiver,
    command: Command,
    code: Seq<u8>,
    known: Option<Seq<char>>,
) -> bool {
    match receiver {
        Receiver::NewAccount { code: carried } => command == Command::Deploy && carried@ == code,
        Receiver::Contract(address) => command != Command::Deploy && known == Some(address@),
    }
}

impl ContractInteract {
    /// The human-readable text of the contract's address, if one is known.
    pub closed spec fn known_address(&self) -> Option<Seq<char>> {
        self.state@
    }

    /// Whether a command is in flight, and which.
    pub closed spec fn phase_of(&self) -> Phase {
        self.phase
    }

    /// The address that requests are sent from.
    pub closed spec fn wallet_of(&self) -> Address {
        self.wallet_address
    }

    /// The code that `deploy` creates the contract with.
    pub closed spec fn code_of(&self) -> Seq<u8> {
        self.contract_code@
    }

    /// A dispatcher that waits for its first command.
    pub fn new(wallet_address: Address, contract_code: Vec<u8>, state: State) -> (interact: Self)
        ensures
            interact.phase_of() is Idle,
            interact.wallet_of() == wallet_address,
            interact.code_of() == contract_code@,
            interact.known_address() == state@,
    {
        ContractInteract { wallet_address, contract_code, state, phase: Phase::Idle }
    }

    /// The record of the contract's address.
    pub fn state(&self) -> (state: &State)
        ensures
            state@ == self.known_address(),
            state.is_valid(),
    {
        proof {
            use_type_invariant(&self.state);
        }
        &self.state
    }

    /// Gives up the dispatcher for its record of the contract's address.
    pub fn into_state(self) -> (state: State)
        ensures
            state@ == self.known_address(),
            state.is_valid(),
    {
        proof {
            use_type_invariant(&self.state);
        }
        self.state
    }

    /// The address that requests are sent from.
    pub fn wallet_address(&self) -> (address: &Address)
        ensures
            *address == self.wallet_of(),
    {
        &self.wallet_address
    }

    /// Whether a command is in flight, and which.
    pub fn phase(&self) -> (phase: Phase)
        ensures
            phase == self.phase_of(),
    {
        self.phase
    }

    /// Takes a command and builds its request.
    ///
    /// The arguments and the payment are those that the caller has for the
    /// command; the payment is used only where the operation takes one.
    /// Where a request is built, the command is in flight until `complete`.
    /// Where the command is given up, nothing is in flight and nothing has
    /// changed.
    pub fn begin(&mut self, command_name: &str, raw_args: &Vec<ArgValue>, payment: Option<Payment>)
        -> (started: Result<BuiltRequest, InteractError>)
        requires
            old(self).phase_of() is Idle,
        ensures
            final(self).known_address() == old(self).known_address(),
            final(self).wallet_of() == old(self).wallet_of(),
            final(self).code_of() == old(self).code_of(),
            match started {
                Err(error) => {
                    &&& refusal(command_name@, old(self).known_address(), raw_args@) == Some(error)
                    &&& final(self).phase_of() is Idle
                },
                Ok(request) => {
                    &&& refusal(command_name@, old(self).known_address(), raw_args@) is None
                    &&& Command::parsed(command_name@) matches Some(command)
                    &&& final(self).phase_of() == Phase::Executing(command)
                    &&& request.call_kind == command.call_kind_of()
                    &&& request.sender == old(self).wallet_of()
                    &&& goes_to(
                        request.receiver,
                        command,
                        old(self).code_of(),
                        old(self).known_address(),
                    )
                    &&& request.function@ == command.endpoint_of()
                    &&& encoded_arguments(command.argument_kinds_of(), raw_args@) == Ok::<
                        _,
                        InteractError,
                    >(views(request.arguments@))
                    &&& request.payment == payment_for(command.payment_rule_of(), payment)
                    &&& request.result == command.result_shape_of()
                },
            },
    {
        let descriptor = match lookup(command_name) {
            Ok(descriptor) => descriptor,
            Err(error) => {
                return Err(error);
            },
        };
        let command = descriptor.command;
        let receiver = match command {
            Command::Deploy => Receiver::NewAccount {
                code: slice_to_vec(self.contract_code.as_slice()),
            },
            _ => match self.state.current_address() {
                Ok(address) => Receiver::Contract(address.clone()),
                Err(error) => {
                    return Err(error);
                },
            },
        };
        let payment = match descriptor.payment {
            PaymentRule::NotPayable => None,
            _ => payment,
        };
        match build(&descriptor, self.wallet_address, receiver, raw_args, payment) {
            Ok(request) => {
                self.phase = Phase::Executing(command);
                Ok(request)
            },
            Err(error) => Err(error),
        }
    }

    /// Takes the outcome of the command in flight.
    ///
    /// Where `deploy` has created an account, its address becomes the
    /// contract's address. After that nothing is in flight.
    pub fn complete(&mut self, outcome: Outcome) -> (report: Report)
        requires
            old(self).phase_of() is Executing,
        ensures
            final(self).phase_of() is Idle,
            final(self).wallet_of() == old(self).wallet_of(),
            final(self).code_of() == old(self).code_of(),
            final(self).known_address() == known_after(
                old(self).phase_of(),
                old(self).known_address(),
                outcome,
            ),
            match outcome {
                Outcome::NewAddress(address) => report matches Report::NewAddress(shown)
                    && shown@ == address_text(address@),
                Outcome::Values(values) => report == Report::Values(values),
                Outcome::Fault(message) => report == Report::Fault(message),
            },
    {
        let phase = self.phase;
        self.phase = Phase::Idle;
        match outcome {
            Outcome::NewAddress(address) => {
                let shown = Bech32Address::from_address(address);
                match phase {
                    Phase::Executing(Command::Deploy) => {
                        self.state.set_address(shown.clone());
                    },
                    _ => {},
                }
                Report::NewAddress(shown)
            },
            Outcome::Values(values) => Report::Values(values),
            Outcome::Fault(message) => Report::Fault(message),
        }
    }
}

} // verus!
