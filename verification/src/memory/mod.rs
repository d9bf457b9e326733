//! Addresses, the zero page and the ways an instruction can address memory.
use vstd::prelude::*;

pub mod address_mode;
pub mod define;
pub mod label;
pub mod user_count;

verus! {

/// Memory address
pub type Address = u16;

/// What the address lookup of an application holds: the address of every
/// define and of every label, by name.
pub type AddressBook = Map<Seq<char>, Address>;

/// The address `distance` bytes after `base`. The address space has 16 bits,
/// an address past its end wraps around to its start.
pub open spec fn address_after(base: Address, distance: int) -> Address {
    ((base + distance) % 0x1_0000) as Address
}

/// The low byte of `address`.
pub open spec fn low_byte(address: Address) -> u8 {
    (address % 0x100) as u8
}

/// The high byte of `address`.
pub open spec fn high_byte(address: Address) -> u8 {
    (address / 0x100) as u8
}

/// Trait for instructions that can handle zeropage and regular addresses.
///
/// Zeropage is a special address mode on the 6502 where fewer CPU-cycles and
/// less instruction size is used when accessing RAM below 0x0100.
///
/// Based on `is_zeropage` the caller can decide if it only needs the low byte or
/// both the low and high byte.
pub trait ZeroPage {
    /// The address that the value stands for.
    spec fn address(&self) -> Address;

    /// Is the address a zeropage address
    fn is_zeropage(&self) -> (result: bool)
        ensures
            result == (self.address() < 0x100),
    ;

    /// Get the lower byte of the address
    fn low(&self) -> (byte: u8)
        ensures
            byte == low_byte(self.address()),
    ;

    /// Get the higher byte of the address
    fn high(&self) -> (byte: u8)
        ensures
            byte == high_byte(self.address()),
    ;
}

impl ZeroPage for Address {
    open spec fn address(&self) -> Address {
        *self
    }

    fn is_zeropage(&self) -> (result: bool) {
        *self < 0x100
    }

    fn low(&self) -> (byte: u8) {
        let address: u16 = *self;
        assert(address & 0xFF == address % 0x100) by (bit_vector);
        (address & 0xFF) as u8
    }

    fn high(&self) -> (byte: u8) {
        let address: u16 = *self;
        assert(address >> 8 == address / 0x100) by (bit_vector);
        (address >> 8) as u8
    }
}

/// The address `offset` bytes after `base`, see [`address_after`].
pub fn add_offset(base: Address, offset: Address) -> (address: Address)
    ensures
        address == address_after(base, offset as int),
{
    base.wrapping_add(offset)
}

} // verus!
