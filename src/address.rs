//! Seven-bit bus addresses of LP50xx chips.

use vstd::prelude::*;

verus! {

/// Bus address to which every LP50xx on the bus answers.
pub const BROADCAST_ADDRESS: u8 = 0b0001100;

/// Address pattern of an individually strapped chip; the selector fills the
/// two low bits.
pub const INDEPENDENT_BASE: u8 = 0b0010100;

/// The chip select communication address.
#[derive(Clone, Copy, Debug, PartialEq, Eq, Structural)]
pub enum Address {
    /// All LP50xx chips on the bus.
    Broadcast,
    /// One chip, chosen by how its address pins are strapped (0 to 3).
    Independent(u8),
}

impl Address {
    /// The selector is one that a chip can be strapped to.
    pub open spec fn is_valid(self) -> bool {
        match self {
            Address::Broadcast => true,
            Address::Independent(s) => s <= 3,
        }
    }

    /// The seven-bit address byte for this chip selector. The direction bit
    /// is not included: the bus implementation adds it.
    pub fn into_u8(self) -> (r: u8)
        requires
            self.is_valid(),
        ensures
            r == address_byte(self),
    {
        match self {
            Address::Independent(selector) => INDEPENDENT_BASE | selector,
            Address::Broadcast => BROADCAST_ADDRESS,
        }
    }
}

/// The wire byte of an address.
pub open spec fn address_byte(a: Address) -> u8 {
    match a {
        Address::Broadcast => BROADCAST_ADDRESS,
        Address::Independent(s) => INDEPENDENT_BASE | s,
    }
}

/// Every strapped selector is encoded as the base pattern with the selector in
/// its low bits, and the broadcast byte differs from all of them.
pub proof fn lemma_address_encoding(selector: u8)
    requires
        selector <= 3,
    ensures
        address_byte(Address::Independent(selector)) == (INDEPENDENT_BASE | selector),
        address_byte(Address::Independent(selector)) == INDEPENDENT_BASE + selector,
        address_byte(Address::Broadcast) == BROADCAST_ADDRESS,
        address_byte(Address::Broadcast) != address_byte(Address::Independent(selector)),
{
    assert((0b0010100u8 | selector) == 0b0010100u8 + selector) by (bit_vector)
        requires
            selector <= 3u8,
    ;
}

} // verus!
