//! Account addresses and transaction hashes.

use crate::text::{concat, hex, hex_string};
use vstd::prelude::*;

verus! {

/// The address of an account: twenty bytes.
#[derive(Copy, Clone, Debug, PartialEq, Eq)]
pub struct Address(pub [u8; 20]);

impl View for Address {
    type V = Seq<u8>;

    open spec fn view(&self) -> Seq<u8> {
        self.0@
    }
}

/// The text of an address or a hash: `0x` and its bytes in lowercase
/// hexadecimal digits.
pub open spec fn address_text(bytes: Seq<u8>) -> Seq<char> {
    "0x"@ + hex(bytes)
}

impl Address {
    /// The address whose bytes are all zero.
    pub fn zero() -> (a: Address)
        ensures
            a@ == Seq::new(20, |i: int| 0u8),
    {
        let a = Address([0u8; 20]);
        a
    }

    /// Writes the address as text: `0x` and forty lowercase hexadecimal
    /// digits.
    pub fn to_hex(&self) -> (text: String)
        ensures
            text@ == address_text(self@),
    {
        let digits = hex_string(self.0.as_slice());
        concat("0x", digits.as_str())
    }
}

/// The hash of a transaction: thirty-two bytes.
#[derive(Copy, Clone, Debug, PartialEq, Eq)]
pub struct TxHash(pub [u8; 32]);

impl View for TxHash {
    type V = Seq<u8>;

    open spec fn view(&self) -> Seq<u8> {
        self.0@
    }
}

impl TxHash {
    /// Writes the hash as text: `0x` and sixty-four lowercase hexadecimal
    /// digits.
    pub fn to_hex(&self) -> (text: String)
        ensures
            text@ == address_text(self@),
    {
        let digits = hex_string(self.0.as_slice());
        concat("0x", digits.as_str())
    }
}

} // verus!
