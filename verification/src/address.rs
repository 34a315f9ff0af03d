//! Account addresses as plain values.
use vstd::prelude::*;

verus! {

/// A 32-byte account address (an ed25519 public key or a program-derived
/// address), held as four little-endian 64-bit words.
#[derive(Clone, Copy, Debug, PartialEq, Eq, Structural)]
pub struct Address {
    pub w0: u64,
    pub w1: u64,
    pub w2: u64,
    pub w3: u64,
}

impl Address {
    pub open spec fn spec_zero() -> Address {
        Address { w0: 0, w1: 0, w2: 0, w3: 0 }
    }

    /// The all-zero address, the "unset" marker of every address field.
    pub fn zero() -> (a: Address)
        ensures
            a == Address::spec_zero(),
    {
        Address { w0: 0, w1: 0, w2: 0, w3: 0 }
    }

    /// Whether this is the all-zero address.
    pub fn is_zero(&self) -> (b: bool)
        ensures
            b == (*self == Address::spec_zero()),
    {
        *self == Address::zero()
    }
}

} // verus!
