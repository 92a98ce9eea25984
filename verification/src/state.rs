//! The record of where the contract is: at most one address, unknown until
//! a deploy has given one.
//!
//! The record is kept in storage as one optional text field. Reading and
//! writing storage is the caller's part; `load_state` takes what was found
//! there and `record` gives what is to be written.

use crate::address::{address_of_text, Bech32Address};
use crate::error::InteractError;
use vstd::prelude::*;

verus! {

/// What was found where the state is stored.
#[derive(Debug, PartialEq, Eq)]
pub enum StoredRecord {
    /// Nothing has been stored yet.
    Absent,
    /// Something is stored, but it cannot be read as a record.
    Unreadable,
    /// A record, with the text of its address field if it has one.
    Present(Option<String>),
}

impl StoredRecord {
    /// The text of the address field, where the record has one.
    pub open spec fn address_field(self) -> Option<Seq<char>> {
        match self {
            StoredRecord::Present(Some(text)) => Some(text@),
            _ => None,
        }
    }
}

/// The one contract that this client talks to, once it is known.
#[derive(Debug, PartialEq, Eq)]
pub struct State {
    contract_address: Option<Bech32Address>,
}

impl View for State {
    type V = Option<Seq<char>>;

    /// The human-readable text of the contract's address, if one is known.
    closed spec fn view(&self) -> Option<Seq<char>> {
        match self.contract_address {
            Some(address) => Some(address@),
            None => None,
        }
    }
}

impl Default for State {
    /// A state in which no contract is known.
    fn default() -> (state: State)
        ensures
            state@ is None,
            state.is_valid(),
    {
        State { contract_address: None }
    }
}

impl State {
    /// The address that is known, if any, is a valid one.
    #[verifier::type_invariant]
    pub closed spec fn is_valid(&self) -> bool {
        match self.contract_address {
            Some(address) => address.is_valid(),
            None => true,
        }
    }

    /// What loading a stored record gives: no address where nothing is stored
    /// or the record has no address field, the text of the field where it
    /// stands for an address; `CorruptState` where what is stored cannot be
    /// read, `MalformedAddress` where the field stands for no address.
    pub open spec fn loaded(record: StoredRecord) -> Result<Option<Seq<char>>, InteractError> {
        match record {
            StoredRecord::Absent => Ok(None),
            StoredRecord::Unreadable => Err(InteractError::CorruptState),
            StoredRecord::Present(None) => Ok(None),
            StoredRecord::Present(Some(text)) => if address_of_text(text@) is Some {
                Ok(Some(text@))
            } else {
                Err(InteractError::MalformedAddress)
            },
        }
    }

    /// What is known after one call of `set_address`: the address of that
    /// call, whatever was known before.
    pub open spec fn with_address(known: Option<Seq<char>>, text: Seq<char>) -> Option<Seq<char>> {
        Some(text)
    }

    /// What is known after `set_address` has been called with each of the
    /// given texts in turn.
    pub open spec fn after_setting(known: Option<Seq<char>>, calls: Seq<Seq<char>>) -> Option<
        Seq<char>,
    >
        decreases calls.len(),
    {
        if calls.len() == 0 {
            known
        } else {
            Self::with_address(Self::after_setting(known, calls.drop_last()), calls.last())
        }
    }

    /// A state in which no contract is known.
    pub fn new() -> (state: State)
        ensures
            state@ is None,
            state.is_valid(),
    {
        State { contract_address: None }
    }

    /// Makes the state from what was found in storage.
    pub fn load_state(record: StoredRecord) -> (loaded: Result<State, InteractError>)
        ensures
            match loaded {
                Ok(state) => Self::loaded(record) == Ok::<_, InteractError>(state@)
                    && state.is_valid(),
                Err(error) => Self::loaded(record) == Err::<Option<Seq<char>>, _>(error),
            },
    {
        match record {
            StoredRecord::Absent => Ok(State { contract_address: None }),
            StoredRecord::Unreadable => Err(InteractError::CorruptState),
            StoredRecord::Present(None) => Ok(State { contract_address: None }),
            StoredRecord::Present(Some(text)) => match Bech32Address::from_bech32_string(text) {
                Ok(address) => Ok(State { contract_address: Some(address) }),
                Err(error) => Err(error),
            },
        }
    }

    /// Sets the contract address; a value set before is replaced.
    pub fn set_address(&mut self, address: Bech32Address)
        ensures
            final(self)@ == Some(address@),
            final(self)@ == Self::with_address(old(self)@, address@),
            final(self).is_valid(),
    {
        proof {
            use_type_invariant(&address);
        }
        self.contract_address = Some(address);
    }

    /// Returns the contract address.
    ///
    /// Fails with `NoContractDeployed` exactly where no address is known.
    pub fn current_address(&self) -> (current: Result<&Bech32Address, InteractError>)
        ensures
            match current {
                Ok(address) => self@ == Some(address@),
                Err(error) => error == InteractError::NoContractDeployed && self@ is None,
            },
    {
        match &self.contract_address {
            Some(address) => Ok(address),
            None => Err(InteractError::NoContractDeployed),
        }
    }

    /// The record to store for this state: the text of the address if one is known.
    pub fn record(&self) -> (record: StoredRecord)
        ensures
            record is Present,
            record.address_field() == self@,
    {
        match &self.contract_address {
            Some(address) => StoredRecord::Present(Some(address.to_bech32_string())),
            None => StoredRecord::Present(None),
        }
    }

    /// Starting with no address, an address is known exactly when
    /// `set_address` has been called at least once, and it is then the one
    /// of the last call.
    pub proof fn lemma_known_iff_set(calls: Seq<Seq<char>>)
        ensures
            Self::after_setting(None, calls) is None <==> calls.len() == 0,
            calls.len() > 0 ==> Self::after_setting(None, calls) == Some(calls.last()),
    {
    }

    /// Loading the record of a state gives the same state again.
    pub proof fn lemma_record_loads_back(&self, record: StoredRecord)
        requires
            self.is_valid(),
            record is Present,
            record.address_field() == self@,
        ensures
            Self::loaded(record) == Ok::<_, InteractError>(self@),
    {
        match self.contract_address {
            Some(address) => {
                address.lemma_valid_text();
            },
            None => {},
        }
    }
}

} // verus!
