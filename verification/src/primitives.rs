//! Quantities of fixed width that the configuration records carry. The
//! library hands them on and never computes with them.

use vstd::prelude::*;

verus! {

/// An unsigned 256-bit quantity in four 64-bit words, the least significant
/// word first.
#[derive(Debug, Clone, Copy, PartialEq, Eq)]
pub struct U256(pub [u64; 4]);

impl View for U256 {
    type V = nat;

    /// The number that the four words spell.
    open spec fn view(&self) -> nat {
        (self.0[0] as nat) + (self.0[1] as nat) * 0x1_0000_0000_0000_0000 + (self.0[2] as nat)
            * 0x1_0000_0000_0000_0000 * 0x1_0000_0000_0000_0000 + (self.0[3] as nat)
            * 0x1_0000_0000_0000_0000 * 0x1_0000_0000_0000_0000 * 0x1_0000_0000_0000_0000
    }
}

impl U256 {
    /// The quantity with the given value: it fills the lowest word, and the
    /// other three are zero.
    pub open spec fn from_u64(value: u64) -> U256 {
        U256([value, 0, 0, 0])
    }
}

impl From<u64> for U256 {
    /// Widens a 64-bit value.
    fn from(value: u64) -> (wide: Self)
        ensures
            wide == U256::from_u64(value),
            wide@ == value,
    {
        U256([value, 0, 0, 0])
    }
}

impl vstd::std_specs::convert::FromSpecImpl<u64> for U256 {
    open spec fn obeys_from_spec() -> bool {
        true
    }

    open spec fn from_spec(value: u64) -> Self {
        U256::from_u64(value)
    }
}

/// A 160-bit account identifier in twenty bytes, the most significant first.
#[derive(Debug, Clone, Copy, PartialEq, Eq)]
pub struct Address(pub [u8; 20]);

impl View for Address {
    type V = Seq<u8>;

    open spec fn view(&self) -> Seq<u8> {
        self.0@
    }
}

impl Address {
    /// The identifier that stands for no account: twenty zero bytes.
    pub open spec fn zero() -> Address {
        Address(
            [
                0u8, 0u8, 0u8, 0u8, 0u8, 0u8, 0u8, 0u8, 0u8, 0u8,
                0u8, 0u8, 0u8, 0u8, 0u8, 0u8, 0u8, 0u8, 0u8, 0u8,
            ],
        )
    }
}

impl Default for Address {
    /// The identifier that stands for no account.
    fn default() -> (address: Self)
        ensures
            address == Address::zero(),
            address@ == Seq::new(20, |i: int| 0u8),
    {
        let address = Address([0u8; 20]);
        assert(address.0 =~= Address::zero().0);
        address
    }
}

/// A single-precision floating-point number, held as its IEEE 754 bit
/// pattern. Two of them are equal where their bits are.
#[derive(Debug, Clone, Copy, PartialEq, Eq, Structural)]
pub struct F32Bits(pub u32);

} // verus!
