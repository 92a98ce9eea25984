//! Addresses in their binary form, 32 bytes, and in their human-readable
//! form, a bech32 text.
//!
//! The bech32 format itself is the `bech32` crate's: its four functions are
//! called through the wrappers at the head of this file, and what they return
//! is named, not spelled out. What is verified here is what is built on them:
//! which prefix and checksum an address is written with, that only 32 bytes
//! make an address, and that an address read back from its text is the one
//! that was written.

use crate::error::InteractError;
use bech32::{CheckBase32, FromBase32, ToBase32};
use vstd::prelude::*;

verus! {

/// Number of bytes in a binary address.
pub const ADDRESS_LEN: usize = 32;

/// The checksum constant that closes a bech32 text.
#[derive(Clone, Copy, Debug, PartialEq, Eq, Structural)]
pub enum Checksum {
    Bech32,
    Bech32m,
}

/// The 5-bit groups that `bech32::ToBase32::to_base32` makes of a byte string.
pub uninterp spec fn base32_groups(bytes: Seq<u8>) -> Seq<u8>;

/// The bytes that `bech32::FromBase32::from_base32` makes of 5-bit groups,
/// `None` where it reports an error.
pub uninterp spec fn base32_bytes(groups: Seq<u8>) -> Option<Seq<u8>>;

/// The text that `bech32::encode` makes of a human-readable part and 5-bit groups.
pub uninterp spec fn bech32_text(hrp: Seq<char>, groups: Seq<u8>, checksum: Checksum) -> Seq<char>;

/// The 5-bit groups of the data part that `bech32::decode` finds in a text,
/// `None` where it reports an error.
pub uninterp spec fn bech32_groups(text: Seq<char>) -> Option<Seq<u8>>;

/// Every element is a 5-bit value.
pub open spec fn all_five_bit(groups: Seq<u8>) -> bool {
    forall|i: int| 0 <= i < groups.len() ==> #[trigger] groups[i] < 32
}

/// What `bech32` accepts as a human-readable part: 1 to 83 characters, each a
/// printable ASCII character, and not both an upper-case and a lower-case letter.
pub open spec fn hrp_is_valid(hrp: Seq<char>) -> bool {
    &&& 1 <= hrp.len() <= 83
    &&& forall|i: int| 0 <= i < hrp.len() ==> 33 <= #[trigger] hrp[i] as u32 <= 126
    &&& !(has_lower_case(hrp) && has_upper_case(hrp))
}

/// One of the characters is a lower-case letter.
pub open spec fn has_lower_case(text: Seq<char>) -> bool {
    exists|i: int| 0 <= i < text.len() && 'a' <= #[trigger] text[i] <= 'z'
}

/// One of the characters is an upper-case letter.
pub open spec fn has_upper_case(text: Seq<char>) -> bool {
    exists|i: int| 0 <= i < text.len() && 'A' <= #[trigger] text[i] <= 'Z'
}

/// Calls `bech32::ToBase32::to_base32` on a byte string and hands each group
/// out as a `u8`.
///
/// Trusted: the groups are those that `to_base32` makes of these bytes
/// (`base32_groups`), each is below 32, and `from_base32` makes the same
/// bytes of them again.
#[verifier::external_body]
fn to_base32(bytes: &[u8]) -> (groups: Vec<u8>)
    ensures
        groups@ == base32_groups(bytes@),
        all_five_bit(groups@),
        base32_bytes(groups@) == Some(bytes@),
{
    bytes.to_base32().iter().map(|g| g.to_u8()).collect()
}

/// Calls `bech32::FromBase32::from_base32` for `Vec<u8>` on 5-bit groups.
///
/// Trusted: the bytes are those that `from_base32` makes of these groups,
/// `None` where it reports an error (`base32_bytes`).
#[verifier::external_body]
fn from_base32(groups: &Vec<u8>) -> (bytes: Option<Vec<u8>>)
    requires
        all_five_bit(groups@),
    ensures
        match bytes {
            Some(b) => base32_bytes(groups@) == Some(b@),
            None => base32_bytes(groups@) is None,
        },
{
    let data = groups.check_base32().ok()?;
    Vec::<u8>::from_base32(&data).ok()
}

/// Calls `bech32::encode`.
///
/// Trusted: `encode` reports no error for a human-readable part that
/// `hrp_is_valid` admits; the text is the one that it makes of its arguments
/// (`bech32_text`); and `bech32::decode` finds the same groups again in that
/// text.
#[verifier::external_body]
fn bech32_encode(hrp: &str, groups: &Vec<u8>, checksum: Checksum) -> (text: Option<String>)
    requires
        all_five_bit(groups@),
    ensures
        hrp_is_valid(hrp@) ==> text is Some,
        text matches Some(t) ==> t@ == bech32_text(hrp@, groups@, checksum) && bech32_groups(t@)
            == Some(groups@),
{
    let data = groups.check_base32().ok()?;
    let variant = match checksum {
        Checksum::Bech32 => ::bech32::Variant::Bech32,
        Checksum::Bech32m => ::bech32::Variant::Bech32m,
    };
    ::bech32::encode(hrp, data, variant).ok()
}

/// Calls `bech32::decode` and hands out the groups of the data part, each as
/// a `u8`; the human-readable part and the checksum constant are left aside.
///
/// Trusted: the groups are those that `decode` finds in the text, `None`
/// where it reports an error (`bech32_groups`), and each is below 32.
#[verifier::external_body]
fn bech32_decode(text: &str) -> (groups: Option<Vec<u8>>)
    ensures
        match groups {
            Some(g) => bech32_groups(text@) == Some(g@) && all_five_bit(g@),
            None => bech32_groups(text@) is None,
        },
{
    match ::bech32::decode(text) {
        Ok((_hrp, data, _variant)) => Some(data.iter().map(|g| g.to_u8()).collect()),
        Err(_) => None,
    }
}

/// A binary account address: 32 bytes.
#[derive(Clone, Copy, Debug, PartialEq, Eq)]
pub struct Address {
    pub bytes: [u8; 32],
}

impl View for Address {
    type V = Seq<u8>;

    open spec fn view(&self) -> Seq<u8> {
        self.bytes@
    }
}

/// The human-readable text of a binary address.
pub open spec fn address_text(bytes: Seq<u8>) -> Seq<char> {
    bech32_text("erd"@, base32_groups(bytes), Checksum::Bech32)
}

/// The binary address that a text stands for, if it stands for one: the text is
/// checksummed bech32 and its data part holds 32 bytes.
pub open spec fn address_of_text(text: Seq<char>) -> Option<Seq<u8>> {
    match bech32_groups(text) {
        Some(groups) => match base32_bytes(groups) {
            Some(bytes) => if bytes.len() == ADDRESS_LEN {
                Some(bytes)
            } else {
                None
            },
            None => None,
        },
        None => None,
    }
}

impl Address {
    /// The address with the given bytes.
    pub fn new(bytes: [u8; 32]) -> (address: Address)
        ensures
            address.bytes == bytes,
            address@ == bytes@,
    {
        Address { bytes }
    }

    /// The address whose bytes are those of the slice, if there are 32 of them.
    pub fn from_slice(bytes: &[u8]) -> (address: Option<Address>)
        ensures
            match address {
                Some(a) => bytes@.len() == ADDRESS_LEN && a@ == bytes@,
                None => bytes@.len() != ADDRESS_LEN,
            },
    {
        if bytes.len() != ADDRESS_LEN {
            return None;
        }
        let mut out: [u8; 32] = [0u8; 32];
        let mut i: usize = 0;
        while i < ADDRESS_LEN
            invariant
                i <= ADDRESS_LEN,
                bytes@.len() == ADDRESS_LEN,
                forall|j: int| 0 <= j < i ==> out@[j] == bytes@[j],
            decreases ADDRESS_LEN - i,
        {
            out[i] = bytes[i];
            i += 1;
        }
        assert(out@ =~= bytes@);
        Some(Address { bytes: out })
    }

    /// The 32 bytes of the address.
    pub fn as_bytes(&self) -> (bytes: &[u8; 32])
        ensures
            bytes@ == self@,
    {
        &self.bytes
    }
}

/// Writes a binary address in its human-readable form.
///
/// Decoding the text gives the address back.
pub fn encode(address: &Address) -> (text: String)
    ensures
        text@ == address_text(address@),
        address_of_text(text@) == Some(address@),
{
    let groups = to_base32(address.bytes.as_slice());
    proof {
        reveal_strlit("erd");
    }
    let text = bech32_encode("erd", &groups, Checksum::Bech32);
    text.unwrap()
}

/// Reads a binary address from its human-readable form.
///
/// Fails with `MalformedAddress` exactly where the text stands for no address.
pub fn decode(text: &str) -> (address: Result<Address, InteractError>)
    ensures
        match address {
            Ok(a) => address_of_text(text@) == Some(a@),
            Err(e) => e == InteractError::MalformedAddress && address_of_text(text@) is None,
        },
{
    let groups = match bech32_decode(text) {
        Some(groups) => groups,
        None => return Err(InteractError::MalformedAddress),
    };
    let bytes = match from_base32(&groups) {
        Some(bytes) => bytes,
        None => return Err(InteractError::MalformedAddress),
    };
    match Address::from_slice(bytes.as_slice()) {
        Some(address) => Ok(address),
        None => Err(InteractError::MalformedAddress),
    }
}

/// An address kept together with its human-readable text.
///
/// The text always stands for the address that is kept beside it.
#[derive(Debug, PartialEq, Eq)]
pub struct Bech32Address {
    address: Address,
    bech32: String,
}

impl View for Bech32Address {
    type V = Seq<char>;

    /// The human-readable text.
    closed spec fn view(&self) -> Seq<char> {
        self.bech32@
    }
}

impl Clone for Bech32Address {
    fn clone(&self) -> (copy: Self)
        ensures
            copy@ == self@,
            copy.is_valid(),
    {
        proof {
            use_type_invariant(self);
        }
        Bech32Address { address: self.address, bech32: self.bech32.clone() }
    }
}

impl Bech32Address {
    /// The text stands for the address that is kept beside it.
    #[verifier::type_invariant]
    pub closed spec fn is_valid(&self) -> bool {
        address_of_text(self.bech32@) == Some(self.address@)
    }

    /// The binary address that the text stands for.
    pub open spec fn bytes(&self) -> Seq<u8> {
        address_of_text(self@)->0
    }

    /// Keeps an address together with the text that `encode` writes for it.
    pub fn from_address(address: Address) -> (kept: Bech32Address)
        ensures
            kept@ == address_text(address@),
            kept.bytes() == address@,
            kept.is_valid(),
    {
        let bech32 = encode(&address);
        Bech32Address { address, bech32 }
    }

    /// Keeps a text together with the address that it stands for.
    ///
    /// Fails with `MalformedAddress` exactly where the text stands for no address.
    pub fn from_bech32_string(bech32: String) -> (kept: Result<Bech32Address, InteractError>)
        ensures
            match kept {
                Ok(k) => k@ == bech32@ && address_of_text(bech32@) is Some && k.is_valid(),
                Err(e) => e == InteractError::MalformedAddress && address_of_text(bech32@) is None,
            },
    {
        match decode(bech32.as_str()) {
            Ok(address) => Ok(Bech32Address { address, bech32 }),
            Err(error) => Err(error),
        }
    }

    /// The human-readable text.
    pub fn to_bech32_str(&self) -> (text: &str)
        ensures
            text@ == self@,
    {
        self.bech32.as_str()
    }

    /// A copy of the human-readable text.
    pub fn to_bech32_string(&self) -> (text: String)
        ensures
            text@ == self@,
    {
        self.bech32.clone()
    }

    /// The binary address.
    pub fn as_address(&self) -> (address: &Address)
        ensures
            address_of_text(self@) == Some(address@),
    {
        proof {
            use_type_invariant(self);
        }
        &self.address
    }

    /// What holds of every value of this type: the text stands for an address.
    pub proof fn lemma_valid_text(&self)
        requires
            self.is_valid(),
        ensures
            address_of_text(self@) is Some,
            address_of_text(self@)->0.len() == ADDRESS_LEN,
    {
    }
}

} // verus!
