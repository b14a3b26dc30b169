//! The address space of the CPU, composed of the devices of the console.

use super::address::{wrap16, Address};
use super::bus::Bus;
use super::ram::Ram;
use crate::io::{io_register_at, IoRegister};
use crate::ppu::{ppu_after_read, ppu_after_write, ppu_read, Ppu, PpuBus, PpuState};
use vstd::prelude::*;

verus! {

/// Where the registers of the PPU start. Below them is RAM.
pub const PPU_REG_START: u16 = 0x2000;

/// Where the I/O registers start.
pub const IO_REG_START: u16 = 0x4000;

/// Where the cartridge's part of the address space starts.
pub const CART_SPACE_START: u16 = 0x4020;

/// Where a store starts a copy of one page into the sprite memory.
pub const OAM_DMA: u16 = 0x4014;

/// The memory map of the CPU:
///
/// ```text
///   0x0000 - 0x07FF   RAM, 2 KiB
///   0x0800 - 0x1FFF   the same RAM, three more times
///   0x2000 - 0x2007   the eight registers of the PPU
///   0x2008 - 0x3FFF   the same registers, every eight bytes
///   0x4000 - 0x4017   I/O registers
///   0x4018 - 0x401F   test registers, disabled
///   0x4020 - 0xFFFF   the cartridge
/// ```
///
/// The memory owns the devices for as long as the CPU runs on it; between
/// steps of the CPU they can be reached through its fields.
pub struct Memory<M, P> {
    pub ram: Ram,
    pub ppu: Ppu<P>,
    pub mapper: M,
}

/// The devices behind the memory map as plain values.
pub struct MemoryState<M, P> {
    pub ram: Seq<u8>,
    pub ppu: PpuState<P>,
    pub mapper: M,
}

impl<M: Bus, P: PpuBus> View for Memory<M, P> {
    type V = MemoryState<M::V, P::V>;

    open spec fn view(&self) -> MemoryState<M::V, P::V> {
        MemoryState { ram: self.ram@, ppu: self.ppu@, mapper: self.mapper@ }
    }
}

/// The byte that a load from the I/O region returns. The registers are not
/// emulated beyond their addresses and read as zero; where there is no
/// register, the load finds what the last access to the PPU left on the
/// data bus.
pub open spec fn io_read<P>(ppu: PpuState<P>, addr: u16) -> u8 {
    if io_register_at(addr) is Some {
        0
    } else {
        ppu.last_bus
    }
}

/// The byte that a load from `addr` returns.
pub open spec fn memory_read<M: Bus, P: PpuBus>(state: MemoryState<M::V, P::V>, addr: u16) -> u8 {
    if addr < PPU_REG_START {
        <Ram as Bus>::read(state.ram, addr)
    } else if addr < IO_REG_START {
        ppu_read::<P>(state.ppu, addr)
    } else if addr < CART_SPACE_START {
        io_read(state.ppu, addr)
    } else {
        M::read(state.mapper, addr)
    }
}

/// The devices after a load from `addr`.
pub open spec fn memory_after_read<M: Bus, P: PpuBus>(
    state: MemoryState<M::V, P::V>,
    addr: u16,
) -> MemoryState<M::V, P::V> {
    if addr < PPU_REG_START {
        state
    } else if addr < IO_REG_START {
        MemoryState { ppu: ppu_after_read::<P>(state.ppu, addr), ..state }
    } else if addr < CART_SPACE_START {
        state
    } else {
        MemoryState { mapper: M::after_read(state.mapper, addr), ..state }
    }
}

/// The first `count` bytes of the page `page` as successive loads find
/// them, and the devices after those loads.
pub open spec fn dma_read<M: Bus, P: PpuBus>(
    state: MemoryState<M::V, P::V>,
    page: u8,
    count: nat,
) -> (Seq<u8>, MemoryState<M::V, P::V>)
    decreases count,
{
    if count == 0 {
        (Seq::empty(), state)
    } else {
        let (bytes, before_last) = dma_read::<M, P>(state, page, (count - 1) as nat);
        let addr = wrap16(256 * page + count - 1);
        (
            bytes.push(memory_read::<M, P>(before_last, addr)),
            memory_after_read::<M, P>(before_last, addr),
        )
    }
}

/// The devices after `value` was stored to the I/O register at `addr`.
/// Only the store to 0x4014 has an effect: it copies the 256 bytes of the
/// page that `value` names into the sprite memory of the PPU, at once.
pub open spec fn io_after_write<M: Bus, P: PpuBus>(
    state: MemoryState<M::V, P::V>,
    addr: u16,
    value: u8,
) -> MemoryState<M::V, P::V> {
    if addr == OAM_DMA {
        let (bytes, after) = dma_read::<M, P>(state, value, 256);
        MemoryState { ppu: PpuState { oam: bytes, ..after.ppu }, ..after }
    } else {
        state
    }
}

/// The devices after `value` was stored to `addr`.
pub open spec fn memory_after_write<M: Bus, P: PpuBus>(
    state: MemoryState<M::V, P::V>,
    addr: u16,
    value: u8,
) -> MemoryState<M::V, P::V> {
    if addr < PPU_REG_START {
        MemoryState { ram: <Ram as Bus>::after_write(state.ram, addr, value), ..state }
    } else if addr < IO_REG_START {
        MemoryState { ppu: ppu_after_write::<P>(state.ppu, addr, value), ..state }
    } else if addr < CART_SPACE_START {
        io_after_write::<M, P>(state, addr, value)
    } else {
        MemoryState { mapper: M::after_write(state.mapper, addr, value), ..state }
    }
}

impl<M: Bus, P: PpuBus> Memory<M, P> {
    /// The address space made of the given devices.
    pub fn new(ram: Ram, ppu: Ppu<P>, mapper: M) -> (memory: Memory<M, P>)
        requires
            ppu.wf(),
            mapper.inv(),
        ensures
            memory.inv(),
            memory@ == (MemoryState { ram: ram@, ppu: ppu@, mapper: mapper@ }),
    {
        Memory { ram, ppu, mapper }
    }

    /// Load from the I/O region.
    pub fn read_io_register(&mut self, addr: Address) -> (value: u8)
        requires
            old(self).inv(),
        ensures
            final(self).inv(),
            value == io_read(old(self)@.ppu, addr.0),
            final(self)@ == old(self)@,
    {
        match IoRegister::from_address(addr) {
            Some(_) => 0,
            None => self.ppu.last_bus(),
        }
    }

    /// Store to the I/O region.
    pub fn write_io_register(&mut self, addr: Address, value: u8)
        requires
            old(self).inv(),
        ensures
            final(self).inv(),
            final(self)@ == io_after_write::<M, P>(old(self)@, addr.0, value),
    {
        match IoRegister::from_address(addr) {
            Some(IoRegister::OamDma) => {
                let mut oam_data = [0u8; 256];
                let start = Address::from_le_bytes(0, value);
                let mut i: usize = 0;
                while i < 256
                    invariant
                        self.inv(),
                        i <= 256,
                        start.0 == 256 * value,
                        (oam_data@.take(i as int), self@) == dma_read::<M, P>(
                            old(self)@,
                            value,
                            i as nat,
                        ),
                    decreases 256 - i,
                {
                    let ghost before = oam_data@;
                    let byte = self.load(start + i);
                    oam_data[i] = byte;
                    assert(oam_data@.take(i + 1) =~= before.take(i as int).push(byte));
                    i += 1;
                }
                assert(oam_data@.take(256) =~= oam_data@);
                self.ppu.oam_dma(oam_data);
            },
            _ => {},
        }
    }
}

impl<M: Bus, P: PpuBus> Bus for Memory<M, P> {
    open spec fn inv(&self) -> bool {
        self.ppu.wf() && self.mapper.inv()
    }

    open spec fn read(model: MemoryState<M::V, P::V>, addr: u16) -> u8 {
        memory_read::<M, P>(model, addr)
    }

    open spec fn after_read(model: MemoryState<M::V, P::V>, addr: u16) -> MemoryState<M::V, P::V> {
        memory_after_read::<M, P>(model, addr)
    }

    open spec fn after_write(
        model: MemoryState<M::V, P::V>,
        addr: u16,
        value: u8,
    ) -> MemoryState<M::V, P::V> {
        memory_after_write::<M, P>(model, addr, value)
    }

    fn load(&mut self, addr: Address) -> (value: u8) {
        if addr.0 < PPU_REG_START {
            self.ram.load(addr)
        } else if addr.0 < IO_REG_START {
            self.ppu.load(addr)
        } else if addr.0 < CART_SPACE_START {
            self.read_io_register(addr)
        } else {
            self.mapper.load(addr)
        }
    }

    fn store(&mut self, addr: Address, value: u8) {
        if addr.0 < PPU_REG_START {
            self.ram.store(addr, value);
        } else if addr.0 < IO_REG_START {
            self.ppu.store(addr, value);
        } else if addr.0 < CART_SPACE_START {
            self.write_io_register(addr, value);
        } else {
            self.mapper.store(addr, value);
        }
    }
}

} // verus!
