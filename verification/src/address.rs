//! Addresses as plain values.
use vstd::prelude::*;

verus! {

/// The `kind` of an address that names an account.
pub const ACCOUNT: u32 = 0;

/// The `kind` of an address that names a contract.
pub const CONTRACT: u32 = 1;

/// An address on the network: what kind of thing it names, and the 32-byte
/// identifier of that thing as two big-endian halves.
///
/// Two addresses name the same thing exactly when they are equal.
#[derive(Clone, Copy, Debug, PartialEq, Eq, Structural)]
pub struct Address {
    /// `ACCOUNT` or `CONTRACT`.
    pub kind: u32,
    /// The first 16 bytes of the identifier.
    pub high: u128,
    /// The last 16 bytes of the identifier.
    pub low: u128,
}

impl Address {
    /// The address as an item of a guardian list.
    pub open spec fn item_spec(self) -> (u32, u128, u128) {
        (self.kind, self.high, self.low)
    }

    /// The address that an item of a guardian list stands for.
    pub open spec fn of_item(item: (u32, u128, u128)) -> Address {
        Address { kind: item.0, high: item.1, low: item.2 }
    }

    /// The address as an item of a guardian list.
    pub fn item(&self) -> (item: (u32, u128, u128))
        ensures
            item == self.item_spec(),
            Address::of_item(item) == *self,
    {
        (self.kind, self.high, self.low)
    }
}

} // verus!
