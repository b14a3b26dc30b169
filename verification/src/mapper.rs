//! Cartridge mappers: the hardware on a cartridge that decides what the
//! addresses of the CPU and of the PPU select in its ROMs.

use crate::mem::address::Address;
use crate::mem::bus::Bus;
use crate::ppu::{palette_index, PpuBus, Vram, NAMETABLE_START, PALETTE_START};
use crate::rom::{nrom_fits, Mirroring, Rom, RomView};
use vstd::prelude::*;

verus! {

/// A kind of cartridge. It maps its program ROM into the address space of
/// the CPU and its character ROM into that of the PPU, so it comes as two
/// halves, one on each bus.
pub trait Mapper {
    /// The half on the CPU's bus.
    type CpuMapper: Bus;

    /// The half on the PPU's bus.
    type PpuMapper: PpuBus;

    /// Whether a cartridge of this kind can hold the image.
    spec fn fits(rom: RomView) -> bool;

    /// The two halves of a cartridge that holds the image.
    fn from_rom(rom: Rom) -> (halves: (Self::CpuMapper, Self::PpuMapper))
        requires
            Self::fits(rom@),
        ensures
            halves.0.inv(),
            halves.1.inv(),
    ;
}

/// Where the program ROM starts in the address space of the CPU.
pub const PRG_BASE_ADDR: u16 = 0x8000;

/// The size of the smaller of the two program ROMs of the simplest
/// cartridge, NROM-128.
pub const NROM_128_SIZE: usize = 0x4000;

/// The size of the larger of them, NROM-256.
pub const NROM_256_SIZE: usize = 0x8000;

/// The simplest kind of cartridge, with no hardware to switch banks.
pub struct Mapper0;

/// The CPU's side of the simplest cartridge: 16 or 32 KiB of program ROM
/// from 0x8000 on, the smaller one twice.
pub struct CpuMapper0 {
    prg: Vec<u8>,
}

/// The PPU's side of the simplest cartridge: 8 KiB of character ROM from
/// address zero on.
pub struct PpuMapper0 {
    chr: Vec<u8>,
    mirroring: Mirroring,
}

/// The PPU's side of the simplest cartridge as plain values.
pub struct ChrView {
    pub chr: Seq<u8>,
    pub mirroring: Mirroring,
}

impl View for CpuMapper0 {
    type V = Seq<u8>;

    closed spec fn view(&self) -> Seq<u8> {
        self.prg@
    }
}

impl View for PpuMapper0 {
    type V = ChrView;

    closed spec fn view(&self) -> ChrView {
        ChrView { chr: self.chr@, mirroring: self.mirroring }
    }
}

/// The index into the program ROM `prg` that `addr` selects.
pub open spec fn prg_index(prg: Seq<u8>, addr: u16) -> int {
    (addr - 0x8000) % (prg.len() as int)
}

/// The index into the video RAM that the name table address `addr`
/// selects. The four name tables of 1 KiB each show again from 0x3000 on.
/// Of the four, the video RAM holds two: which of them are one and the
/// same is up to the cartridge.
pub open spec fn nametable_index(mirroring: Mirroring, addr: u16) -> int {
    let offset = (addr - 0x2000) % 0x1000;
    let table = offset / 0x400;
    let within = offset % 0x400;
    match mirroring {
        Mirroring::Horizonal => (table / 2) * 0x400 + within,
        Mirroring::Vertical => (table % 2) * 0x400 + within,
        Mirroring::FourScreen => offset % 0x800,
    }
}

impl CpuMapper0 {
    /// The CPU's side of a cartridge with the program ROM `prg`.
    pub fn new(prg: Vec<u8>) -> (mapper: CpuMapper0)
        requires
            prg@.len() == 0x4000 || prg@.len() == 0x8000,
        ensures
            mapper.inv(),
            mapper@ == prg@,
    {
        CpuMapper0 { prg }
    }
}

impl Bus for CpuMapper0 {
    open spec fn inv(&self) -> bool {
        self@.len() == 0x4000 || self@.len() == 0x8000
    }

    open spec fn read(model: Seq<u8>, addr: u16) -> u8 {
        model[prg_index(model, addr)]
    }

    open spec fn after_read(model: Seq<u8>, addr: u16) -> Seq<u8> {
        model
    }

    open spec fn after_write(model: Seq<u8>, addr: u16, value: u8) -> Seq<u8> {
        model
    }

    fn load(&mut self, addr: Address) -> (value: u8) {
        // The larger ROM fills the upper half of the address space and the
        // smaller one a quarter of it, so either way the index is what is
        // left of the address after whole ROMs are taken off.
        let index = addr.as_usize() % self.prg.len();
        assert(index == prg_index(self@, addr.0)) by {
            if self@.len() == 0x4000 {
                assert((addr.0 - 0x8000) % 0x4000 == addr.0 % 0x4000);
            } else {
                assert((addr.0 - 0x8000) % 0x8000 == addr.0 % 0x8000);
            }
        }
        self.prg[index]
    }

    fn store(&mut self, _addr: Address, _value: u8) {
        // A ROM cannot be written.
    }
}

impl PpuMapper0 {
    /// The PPU's side of a cartridge with the character ROM `chr`.
    pub fn new(chr: Vec<u8>, mirroring: Mirroring) -> (mapper: PpuMapper0)
        requires
            chr@.len() == 0x2000,
        ensures
            mapper.inv(),
            mapper@ == (ChrView { chr: chr@, mirroring }),
    {
        PpuMapper0 { chr, mirroring }
    }

    /// The index into the video RAM that a name table address selects.
    fn vram_index(&self, addr: Address) -> (index: usize)
        requires
            0x2000 <= addr.0 < 0x3F00,
        ensures
            index == nametable_index(self@.mirroring, addr.0),
            index < 2048,
    {
        let offset: usize = (addr.as_usize() - 0x2000) % 0x1000;
        let table = offset / 0x400;
        let within = offset % 0x400;
        match self.mirroring {
            Mirroring::Horizonal => (table / 2) * 0x400 + within,
            Mirroring::Vertical => (table % 2) * 0x400 + within,
            Mirroring::FourScreen => offset % 0x800,
        }
    }
}

impl PpuBus for PpuMapper0 {
    open spec fn inv(&self) -> bool {
        self@.chr.len() == 0x2000
    }

    open spec fn read(model: ChrView, vram: Seq<u8>, palette: Seq<u8>, addr: u16) -> u8 {
        if addr < NAMETABLE_START {
            model.chr[addr as int]
        } else if addr >= PALETTE_START {
            palette[palette_index(addr)]
        } else {
            vram[nametable_index(model.mirroring, addr)]
        }
    }

    open spec fn after_read(model: ChrView, vram: Seq<u8>, palette: Seq<u8>, addr: u16) -> ChrView {
        model
    }

    open spec fn after_write(
        model: ChrView,
        vram: Seq<u8>,
        palette: Seq<u8>,
        addr: u16,
        value: u8,
    ) -> (ChrView, Seq<u8>, Seq<u8>) {
        if addr < NAMETABLE_START {
            (model, vram, palette)
        } else if addr >= PALETTE_START {
            (model, vram, palette.update(palette_index(addr), value))
        } else {
            (model, vram.update(nametable_index(model.mirroring, addr), value), palette)
        }
    }

    fn ppu_load(&mut self, vram: &Vram, palette: &[u8; 32], addr: Address) -> (value: u8) {
        if addr.0 < NAMETABLE_START {
            self.chr[addr.as_usize()]
        } else if addr.0 >= PALETTE_START {
            palette[addr.as_usize() % 32]
        } else {
            vram.0[self.vram_index(addr)]
        }
    }

    fn ppu_store(&mut self, vram: &mut Vram, palette: &mut [u8; 32], addr: Address, value: u8) {
        if addr.0 < NAMETABLE_START {
            // The character ROM cannot be written.
        } else if addr.0 >= PALETTE_START {
            palette[addr.as_usize() % 32] = value;
        } else {
            let index = self.vram_index(addr);
            vram.0[index] = value;
        }
    }
}

impl Mapper for Mapper0 {
    type CpuMapper = CpuMapper0;

    type PpuMapper = PpuMapper0;

    open spec fn fits(rom: RomView) -> bool {
        nrom_fits(rom)
    }

    fn from_rom(rom: Rom) -> (halves: (CpuMapper0, PpuMapper0))
        ensures
            halves.0@ == rom@.prg,
            halves.1@ == (ChrView { chr: rom@.chr, mirroring: rom@.header.mirroring }),
    {
        let Rom { header, prg, chr } = rom;
        (CpuMapper0::new(prg), PpuMapper0::new(chr, header.mirroring))
    }
}

/// The CPU's side of the cartridge that `init` makes.
pub type CpuMapper = CpuMapper0;

/// The PPU's side of the cartridge that `init` makes.
pub type PpuMapper = PpuMapper0;

/// The two halves of the cartridge for an image. Every image is taken for
/// the simplest kind of cartridge.
pub fn init(rom: Rom) -> (halves: (CpuMapper, PpuMapper))
    requires
        nrom_fits(rom@),
    ensures
        halves.0.inv(),
        halves.1.inv(),
        halves.0@ == rom@.prg,
        halves.1@ == (ChrView { chr: rom@.chr, mirroring: rom@.header.mirroring }),
{
    Mapper0::from_rom(rom)
}

} // verus!
