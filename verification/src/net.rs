//! Plain representations of the two kinds of address the probe works with.

use vstd::prelude::*;

verus! {

/// A 6-byte link-layer (MAC) address.
#[derive(Clone, Copy, PartialEq, Eq, Structural, Debug)]
pub struct MacAddress(pub u8, pub u8, pub u8, pub u8, pub u8, pub u8);

impl MacAddress {
    /// The well-known all-ones broadcast address.
    pub open spec fn spec_broadcast() -> MacAddress {
        MacAddress(0xFF, 0xFF, 0xFF, 0xFF, 0xFF, 0xFF)
    }

    /// The well-known all-ones broadcast address.
    pub fn broadcast() -> (r: MacAddress)
        ensures
            r == MacAddress::spec_broadcast(),
    {
        MacAddress(0xFF, 0xFF, 0xFF, 0xFF, 0xFF, 0xFF)
    }

    pub open spec fn is_broadcast(self) -> bool {
        self == MacAddress::spec_broadcast()
    }
}

/// A 4-byte IPv4 address, one field per octet in the usual written order.
#[derive(Clone, Copy, PartialEq, Eq, Structural, Debug)]
pub struct Ipv4Address(pub u8, pub u8, pub u8, pub u8);

} // verus!
