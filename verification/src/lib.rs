//! Dispatch layer of a command-line client for one deployed contract.
//!
//! A command name is looked up in a closed catalog of operations
//! ([`catalog`]), the contract's address is taken from the one-slot record
//! of where the contract is ([`state`]), the arguments are encoded for the
//! slots of the operation ([`encoding`]) and everything is put together into
//! a request that can be submitted as it is ([`request`]). The dispatcher
//! ([`dispatch`]) runs these steps for one command at a time and records the
//! address that a deploy gives; what came back is shown as one line
//! ([`render`]).
//!
//! Nothing here reads a file or talks to the network: the caller loads and
//! stores the record, submits the request and hands the outcome back.
//!
//! Addresses are written and read with the `bech32` crate, and numbers are
//! encoded by the contract framework's codec. Those calls stand behind a
//! few functions marked `external_body` in [`address`] and [`encoding`],
//! whose contracts are taken on trust; everything else is verified.

pub mod address;
pub mod catalog;
pub mod dispatch;
pub mod encoding;
pub mod error;
pub mod placeholder;
pub mod render;
pub mod request;
pub mod state;
