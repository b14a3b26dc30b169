//! A cartridge as one device that sits on both buses.

use crate::mapper::{init, ChrView, CpuMapper, PpuMapper};
use crate::mem::address::Address;
use crate::mem::bus::Bus;
use crate::ppu::{PpuBus, Vram};
use crate::rom::{nrom_fits, Rom};
use vstd::prelude::*;

verus! {

/// A cartridge: its side on the CPU's bus and its side on the PPU's bus.
pub struct Cartridge {
    cpu_side: CpuMapper,
    ppu_side: PpuMapper,
}

/// A cartridge as plain values.
pub struct CartridgeView {
    /// The program ROM.
    pub prg: Seq<u8>,
    /// The character ROM and how the name tables are wired.
    pub chr: ChrView,
}

impl View for Cartridge {
    type V = CartridgeView;

    closed spec fn view(&self) -> CartridgeView {
        CartridgeView { prg: self.cpu_side@, chr: self.ppu_side@ }
    }
}

impl Cartridge {
    /// What holds of a cartridge at all times: its ROMs have the sizes of
    /// the simplest kind of cartridge.
    pub closed spec fn wf(&self) -> bool {
        self.cpu_side.inv() && self.ppu_side.inv()
    }

    /// The cartridge for an image.
    pub fn new(rom: Rom) -> (cartridge: Cartridge)
        requires
            nrom_fits(rom@),
        ensures
            cartridge.wf(),
            cartridge@ == (CartridgeView {
                prg: rom@.prg,
                chr: ChrView { chr: rom@.chr, mirroring: rom@.header.mirroring },
            }),
    {
        let (cpu_side, ppu_side) = init(rom);
        Cartridge { cpu_side, ppu_side }
    }
}

impl Bus for Cartridge {
    open spec fn inv(&self) -> bool {
        self.wf()
    }

    open spec fn read(model: CartridgeView, addr: u16) -> u8 {
        <CpuMapper as Bus>::read(model.prg, addr)
    }

    open spec fn after_read(model: CartridgeView, addr: u16) -> CartridgeView {
        model
    }

    open spec fn after_write(model: CartridgeView, addr: u16, value: u8) -> CartridgeView {
        model
    }

    fn load(&mut self, addr: Address) -> (value: u8) {
        self.cpu_side.load(addr)
    }

    fn store(&mut self, addr: Address, value: u8) {
        self.cpu_side.store(addr, value)
    }
}

impl PpuBus for Cartridge {
    open spec fn inv(&self) -> bool {
        self.wf()
    }

    open spec fn read(model: CartridgeView, vram: Seq<u8>, palette: Seq<u8>, addr: u16) -> u8 {
        <PpuMapper as PpuBus>::read(model.chr, vram, palette, addr)
    }

    open spec fn after_read(
        model: CartridgeView,
        vram: Seq<u8>,
        palette: Seq<u8>,
        addr: u16,
    ) -> CartridgeView {
        model
    }

    open spec fn after_write(
        model: CartridgeView,
        vram: Seq<u8>,
        palette: Seq<u8>,
        addr: u16,
        value: u8,
    ) -> (CartridgeView, Seq<u8>, Seq<u8>) {
        let (_, vram_after, palette_after) = <PpuMapper as PpuBus>::after_write(
            model.chr,
            vram,
            palette,
            addr,
            value,
        );
        (model, vram_after, palette_after)
    }

    fn ppu_load(&mut self, vram: &Vram, palette: &[u8; 32], addr: Address) -> (value: u8) {
        self.ppu_side.ppu_load(vram, palette, addr)
    }

    fn ppu_store(&mut self, vram: &mut Vram, palette: &mut [u8; 32], addr: Address, value: u8) {
        self.ppu_side.ppu_store(vram, palette, addr, value)
    }
}

} // verus!
