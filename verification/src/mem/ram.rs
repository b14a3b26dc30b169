//! The 2 KiB of RAM built into the console.

use super::address::{low_bits, Address};
use super::bus::Bus;
use vstd::prelude::*;

verus! {

/// The number of bytes of RAM.
pub const RAM_SIZE: usize = 2048;

/// The number of address lines that the RAM decodes.
pub const RAM_ADDR_BITS: u8 = 11;

/// The console's RAM. It is much smaller than the region of the address
/// space that selects it: the high address bits are not decoded, so the
/// RAM shows again every 2 KiB.
pub struct Ram([u8; 2048]);

impl View for Ram {
    type V = Seq<u8>;

    closed spec fn view(&self) -> Seq<u8> {
        self.0@
    }
}

/// The index into the RAM that `addr` selects.
pub open spec fn ram_index(addr: u16) -> int {
    addr as int % 2048
}

/// Masking to eleven bits is the remainder by 2048.
pub proof fn lemma_ram_alias(addr: u16)
    ensures
        low_bits(addr, RAM_ADDR_BITS) == ram_index(addr),
{
    vstd::arithmetic::power2::lemma2_to64();
}

impl Ram {
    /// RAM filled with zeros.
    pub fn new() -> (ram: Ram)
        ensures
            ram@ == Seq::new(2048, |i: int| 0u8),
    {
        let ram = Ram([0u8; 2048]);
        assert(ram.0@ =~= Seq::new(2048, |i: int| 0u8));
        ram
    }
}

impl Bus for Ram {
    open spec fn inv(&self) -> bool {
        true
    }

    open spec fn read(model: Seq<u8>, addr: u16) -> u8 {
        model[ram_index(addr)]
    }

    open spec fn after_read(model: Seq<u8>, addr: u16) -> Seq<u8> {
        model
    }

    open spec fn after_write(model: Seq<u8>, addr: u16, value: u8) -> Seq<u8> {
        model.update(ram_index(addr), value)
    }

    fn load(&mut self, addr: Address) -> (value: u8) {
        proof {
            lemma_ram_alias(addr.0);
        }
        self.0[addr.alias(RAM_ADDR_BITS).as_usize()]
    }

    fn store(&mut self, addr: Address, value: u8) {
        proof {
            lemma_ram_alias(addr.0);
        }
        self.0[addr.alias(RAM_ADDR_BITS).as_usize()] = value;
    }
}

} // verus!
