//! The picture processing unit, as far as the CPU sees it: eight registers
//! in the CPU's address space, behind which stand the PPU's own address
//! space, its sprite memory and its palette.

pub mod render;

use crate::mem::address::{le_word, Address};
use crate::mem::bus::Bus;
use vstd::prelude::*;

verus! {

/// The number of bytes of video RAM.
pub const VRAM_SIZE: usize = 2048;

/// Where the first name table starts in the PPU's address space. What lies
/// below it are the pattern tables.
pub const NAMETABLE_START: u16 = 0x2000;

/// Where the palette starts in the PPU's address space.
pub const PALETTE_START: u16 = 0x3F00;

/// The video RAM of the PPU, which holds two name tables.
pub struct Vram(pub [u8; 2048]);

impl View for Vram {
    type V = Seq<u8>;

    open spec fn view(&self) -> Seq<u8> {
        self.0@
    }
}

impl Vram {
    /// Video RAM filled with zeros.
    pub fn new() -> (vram: Vram)
        ensures
            vram@ == Seq::new(2048, |i: int| 0u8),
    {
        let vram = Vram([0u8; 2048]);
        assert(vram.0@ =~= Seq::new(2048, |i: int| 0u8));
        vram
    }
}

/// The PPU's own address space, as the cartridge lays it out. The
/// cartridge decides what a PPU address selects, and may route it to the
/// video RAM or the palette of the PPU, which are therefore handed to it.
///
/// As with the CPU's bus, the device is described by its view and by
/// functions of that view.
pub trait PpuBus: View {
    /// What must hold of the device for it to be used.
    spec fn inv(&self) -> bool;

    /// The byte that a load from `addr` returns.
    spec fn read(model: Self::V, vram: Seq<u8>, palette: Seq<u8>, addr: u16) -> u8;

    /// The device after a load from `addr`.
    spec fn after_read(model: Self::V, vram: Seq<u8>, palette: Seq<u8>, addr: u16) -> Self::V;

    /// The device, the video RAM and the palette after `value` was stored
    /// to `addr`.
    spec fn after_write(
        model: Self::V,
        vram: Seq<u8>,
        palette: Seq<u8>,
        addr: u16,
        value: u8,
    ) -> (Self::V, Seq<u8>, Seq<u8>);

    /// Load the byte at `addr` of the PPU's address space.
    fn ppu_load(&mut self, vram: &Vram, palette: &[u8; 32], addr: Address) -> (value: u8)
        requires
            old(self).inv(),
        ensures
            final(self).inv(),
            value == Self::read(old(self)@, vram@, palette@, addr.0),
            final(self)@ == Self::after_read(old(self)@, vram@, palette@, addr.0),
    ;

    /// Store `value` at `addr` of the PPU's address space.
    fn ppu_store(&mut self, vram: &mut Vram, palette: &mut [u8; 32], addr: Address, value: u8)
        requires
            old(self).inv(),
        ensures
            final(self).inv(),
            (final(self)@, final(vram)@, final(palette)@) == Self::after_write(
                old(self)@,
                old(vram)@,
                old(palette)@,
                addr.0,
                value,
            ),
    ;
}

/// A register that takes two writes in a row to fill: the scroll position
/// and the PPU address are two bytes each, behind one address each. Once
/// both bytes are in, further writes are dropped until a read of the status
/// register empties the latch.
#[derive(Clone, Copy, Debug, PartialEq, Eq, Structural)]
pub struct DoubleLatch {
    /// What the first write brought.
    pub first: Option<u8>,
    /// What the second write brought.
    pub second: Option<u8>,
}

/// The latch `latch` after `value` was written to it.
pub open spec fn double_written(latch: DoubleLatch, value: u8) -> DoubleLatch {
    match (latch.first, latch.second) {
        (None, None) => DoubleLatch { first: Some(value), second: None },
        (Some(first), None) => DoubleLatch { first: Some(first), second: Some(value) },
        _ => latch,
    }
}

/// The empty latch.
pub open spec fn empty_latch() -> DoubleLatch {
    DoubleLatch { first: None, second: None }
}

/// The address that the PPU address latch holds: the first byte written is
/// the high byte, the second the low byte, and a byte not yet written
/// counts as zero.
pub open spec fn latched_address(latch: DoubleLatch) -> u16 {
    let high = match latch.first {
        Some(byte) => byte,
        None => 0u8,
    };
    let low = match latch.second {
        Some(byte) => byte,
        None => 0u8,
    };
    le_word(low, high)
}

/// Write `value` to a two-step latch.
pub fn double_write(latch: &mut DoubleLatch, value: u8)
    ensures
        *final(latch) == double_written(*old(latch), value),
{
    match (latch.first, latch.second) {
        (None, None) => {
            latch.first = Some(value);
        },
        (Some(_), None) => {
            latch.second = Some(value);
        },
        _ => {},
    }
}

/// The address that the PPU address latch holds.
pub fn read_ppuaddr(latch: &DoubleLatch) -> (addr: Address)
    ensures
        addr.0 == latched_address(*latch),
{
    let high = match latch.first {
        Some(byte) => byte,
        None => 0,
    };
    let low = match latch.second {
        Some(byte) => byte,
        None => 0,
    };
    Address::from_le_bytes(low, high)
}

/// The eight registers of the PPU.
#[derive(Clone, Copy, Debug, PartialEq, Eq, Structural)]
pub enum PpuRegister {
    Ctrl,
    Mask,
    Status,
    OamAddr,
    OamData,
    Scroll,
    Addr,
    Data,
}

/// The register that `addr` selects: only the three lowest address lines
/// are decoded, so the registers show again every eight bytes.
pub open spec fn ppu_register_at(addr: u16) -> PpuRegister {
    let select = addr % 8;
    if select == 0 {
        PpuRegister::Ctrl
    } else if select == 1 {
        PpuRegister::Mask
    } else if select == 2 {
        PpuRegister::Status
    } else if select == 3 {
        PpuRegister::OamAddr
    } else if select == 4 {
        PpuRegister::OamData
    } else if select == 5 {
        PpuRegister::Scroll
    } else if select == 6 {
        PpuRegister::Addr
    } else {
        PpuRegister::Data
    }
}

/// The name of a register as the hardware documentation writes it.
pub open spec fn ppu_register_name(register: PpuRegister) -> Seq<char> {
    match register {
        PpuRegister::Ctrl => "PPUCTRL"@,
        PpuRegister::Mask => "PPUMASK"@,
        PpuRegister::Status => "PPUSTATUS"@,
        PpuRegister::OamAddr => "OAMADDR"@,
        PpuRegister::OamData => "OAMDATA"@,
        PpuRegister::Scroll => "PPUSCROLL"@,
        PpuRegister::Addr => "PPUADDR"@,
        PpuRegister::Data => "PPUDATA"@,
    }
}

impl PpuRegister {
    /// The register that `addr` selects.
    pub fn from_address(addr: Address) -> (register: PpuRegister)
        ensures
            register == ppu_register_at(addr.0),
    {
        let select = addr.0 % 8;
        if select == 0 {
            PpuRegister::Ctrl
        } else if select == 1 {
            PpuRegister::Mask
        } else if select == 2 {
            PpuRegister::Status
        } else if select == 3 {
            PpuRegister::OamAddr
        } else if select == 4 {
            PpuRegister::OamData
        } else if select == 5 {
            PpuRegister::Scroll
        } else if select == 6 {
            PpuRegister::Addr
        } else {
            PpuRegister::Data
        }
    }

    /// The name of the register as the hardware documentation writes it.
    pub fn name(&self) -> (name: &'static str)
        ensures
            name@ == ppu_register_name(*self),
    {
        match self {
            PpuRegister::Ctrl => "PPUCTRL",
            PpuRegister::Mask => "PPUMASK",
            PpuRegister::Status => "PPUSTATUS",
            PpuRegister::OamAddr => "OAMADDR",
            PpuRegister::OamData => "OAMDATA",
            PpuRegister::Scroll => "PPUSCROLL",
            PpuRegister::Addr => "PPUADDR",
            PpuRegister::Data => "PPUDATA",
        }
    }
}

/// The PPU as plain values, over the model `M` of what its own bus leads
/// to.
pub struct PpuState<M> {
    /// The control register.
    pub ctrl: u8,
    /// The mask register.
    pub mask: u8,
    /// The status register.
    pub status: u8,
    /// The address in sprite memory that the next access goes to.
    pub oam_addr: u8,
    /// The scroll position latch.
    pub scroll: DoubleLatch,
    /// The PPU address latch.
    pub addr: DoubleLatch,
    /// The value that the last access left on the data bus between CPU and
    /// PPU.
    pub last_bus: u8,
    /// The video RAM, 2048 bytes.
    pub vram: Seq<u8>,
    /// The sprite memory, 256 bytes.
    pub oam: Seq<u8>,
    /// The palette, 32 bytes.
    pub palette: Seq<u8>,
    /// What the PPU's own bus leads to.
    pub mapper: M,
}

/// The index into the palette that the PPU address `addr` selects: the
/// palette shows again every 32 bytes.
pub open spec fn palette_index(addr: u16) -> int {
    addr as int % 32
}

/// The byte that a read of the status register returns: the three status
/// bits, over what the last access left on the five unused lines of the
/// data bus.
pub open spec fn status_byte(status: u8, last_bus: u8) -> u8 {
    (status & 0xE0) | (last_bus & 0x1F)
}

/// The byte that a load from the register at `addr` returns. Status, sprite
/// data and PPU data can be read; a read of any other register returns what
/// the last access left on the data bus.
pub open spec fn ppu_read<P: PpuBus>(ppu: PpuState<P::V>, addr: u16) -> u8 {
    match ppu_register_at(addr) {
        PpuRegister::Status => status_byte(ppu.status, ppu.last_bus),
        PpuRegister::OamData => ppu.oam[ppu.oam_addr as int],
        PpuRegister::Data => {
            let target = latched_address(ppu.addr);
            if target < PALETTE_START {
                P::read(ppu.mapper, ppu.vram, ppu.palette, target)
            } else {
                ppu.palette[palette_index(target)]
            }
        },
        _ => ppu.last_bus,
    }
}

/// The PPU after a load from the register at `addr`. The value loaded
/// stays on the data bus. A read of the status register empties both
/// latches and clears bit 7 of the status; a read of PPU data below the
/// palette is a load on the PPU's own bus.
pub open spec fn ppu_after_read<P: PpuBus>(ppu: PpuState<P::V>, addr: u16) -> PpuState<P::V> {
    let value = ppu_read::<P>(ppu, addr);
    match ppu_register_at(addr) {
        PpuRegister::Status => PpuState {
            scroll: empty_latch(),
            addr: empty_latch(),
            status: ppu.status & 0x7F,
            last_bus: value,
            ..ppu
        },
        PpuRegister::Data => {
            let target = latched_address(ppu.addr);
            if target < PALETTE_START {
                PpuState {
                    mapper: P::after_read(ppu.mapper, ppu.vram, ppu.palette, target),
                    last_bus: value,
                    ..ppu
                }
            } else {
                PpuState { last_bus: value, ..ppu }
            }
        },
        _ => PpuState { last_bus: value, ..ppu },
    }
}

/// The PPU after `value` was stored to the register at `addr`. The value
/// stays on the data bus. A write to the status register has no other
/// effect; a write to PPU data below the palette is a store on the PPU's
/// own bus.
pub open spec fn ppu_after_write<P: PpuBus>(ppu: PpuState<P::V>, addr: u16, value: u8) -> PpuState<
    P::V,
> {
    let latched = PpuState { last_bus: value, ..ppu };
    match ppu_register_at(addr) {
        PpuRegister::Ctrl => PpuState { ctrl: value, ..latched },
        PpuRegister::Mask => PpuState { mask: value, ..latched },
        PpuRegister::Status => latched,
        PpuRegister::OamAddr => PpuState { oam_addr: value, ..latched },
        PpuRegister::OamData => PpuState {
            oam: ppu.oam.update(ppu.oam_addr as int, value),
            ..latched
        },
        PpuRegister::Scroll => PpuState { scroll: double_written(ppu.scroll, value), ..latched },
        PpuRegister::Addr => PpuState { addr: double_written(ppu.addr, value), ..latched },
        PpuRegister::Data => {
            let target = latched_address(ppu.addr);
            if target < PALETTE_START {
                let (mapper, vram, palette) = P::after_write(
                    ppu.mapper,
                    ppu.vram,
                    ppu.palette,
                    target,
                    value,
                );
                PpuState { mapper, vram, palette, ..latched }
            } else {
                PpuState { palette: ppu.palette.update(palette_index(target), value), ..latched }
            }
        },
    }
}

/// The PPU at power-on, over the device `mapper` behind its own bus:
/// everything zero, both latches empty.
pub open spec fn initial_ppu<M>(mapper: M) -> PpuState<M> {
    PpuState {
        ctrl: 0,
        mask: 0,
        status: 0,
        oam_addr: 0,
        scroll: empty_latch(),
        addr: empty_latch(),
        last_bus: 0,
        vram: Seq::new(2048, |i: int| 0u8),
        oam: Seq::new(256, |i: int| 0u8),
        palette: Seq::new(32, |i: int| 0u8),
        mapper,
    }
}

/// The PPU's registers.
struct PpuRegisters {
    ctrl: u8,
    mask: u8,
    status: u8,
    oam_addr: u8,
    scroll: DoubleLatch,
    addr: DoubleLatch,
    // What the last access left on the data bus between CPU and PPU. A
    // read of a write-only register returns it.
    last_bus: u8,
}

/// The picture processing unit, over the cartridge's side `M` of the PPU's
/// own bus.
pub struct Ppu<M> {
    registers: PpuRegisters,
    vram: Vram,
    oam: [u8; 256],
    palette: [u8; 32],
    mapper: M,
}

impl<M: PpuBus> View for Ppu<M> {
    type V = PpuState<M::V>;

    closed spec fn view(&self) -> PpuState<M::V> {
        PpuState {
            ctrl: self.registers.ctrl,
            mask: self.registers.mask,
            status: self.registers.status,
            oam_addr: self.registers.oam_addr,
            scroll: self.registers.scroll,
            addr: self.registers.addr,
            last_bus: self.registers.last_bus,
            vram: self.vram@,
            oam: self.oam@,
            palette: self.palette@,
            mapper: self.mapper@,
        }
    }
}

impl<M: PpuBus> Ppu<M> {
    /// What holds of a PPU at all times: its memories have their sizes, and
    /// the device behind its bus can be used.
    pub closed spec fn wf(&self) -> bool {
        self.mapper.inv()
    }

    /// A PPU at power-on, with `mapper` behind its own bus.
    pub fn with_mapper(mapper: M) -> (ppu: Ppu<M>)
        requires
            mapper.inv(),
        ensures
            ppu.wf(),
            ppu@ == initial_ppu(mapper@),
    {
        let ppu = Ppu {
            registers: PpuRegisters {
                ctrl: 0,
                mask: 0,
                status: 0,
                oam_addr: 0,
                scroll: DoubleLatch { first: None, second: None },
                addr: DoubleLatch { first: None, second: None },
                last_bus: 0,
            },
            vram: Vram::new(),
            oam: [0u8; 256],
            palette: [0u8; 32],
            mapper,
        };
        assert(ppu.oam@ =~= Seq::new(256, |i: int| 0u8));
        assert(ppu.palette@ =~= Seq::new(32, |i: int| 0u8));
        ppu
    }

    /// Load a byte from the PPU's own address space.
    pub fn mapper_load(&mut self, addr: Address) -> (value: u8)
        requires
            old(self).wf(),
        ensures
            final(self).wf(),
            value == M::read(old(self)@.mapper, old(self)@.vram, old(self)@.palette, addr.0),
            final(self)@ == (PpuState {
                mapper: M::after_read(
                    old(self)@.mapper,
                    old(self)@.vram,
                    old(self)@.palette,
                    addr.0,
                ),
                ..old(self)@
            }),
    {
        self.mapper.ppu_load(&self.vram, &self.palette, addr)
    }

    /// Store a byte to the PPU's own address space.
    pub fn mapper_store(&mut self, addr: Address, value: u8)
        requires
            old(self).wf(),
        ensures
            final(self).wf(),
            ({
                let (mapper, vram, palette) = M::after_write(
                    old(self)@.mapper,
                    old(self)@.vram,
                    old(self)@.palette,
                    addr.0,
                    value,
                );
                final(self)@ == (PpuState { mapper, vram, palette, ..old(self)@ })
            }),
    {
        self.mapper.ppu_store(&mut self.vram, &mut self.palette, addr, value);
    }

    /// Replace the whole sprite memory.
    pub fn oam_dma(&mut self, oam_data: [u8; 256])
        requires
            old(self).wf(),
        ensures
            final(self).wf(),
            final(self)@ == (PpuState { oam: oam_data@, ..old(self)@ }),
    {
        self.oam = oam_data;
    }

    /// The sprite memory.
    pub fn oam(&self) -> (oam: &[u8; 256])
        ensures
            oam@ == self@.oam,
    {
        &self.oam
    }

    /// The palette.
    pub fn palette(&self) -> (palette: &[u8; 32])
        ensures
            palette@ == self@.palette,
    {
        &self.palette
    }

    /// What the last access left on the data bus between CPU and PPU.
    pub fn last_bus(&self) -> (value: u8)
        ensures
            value == self@.last_bus,
    {
        self.registers.last_bus
    }

    /// The status register.
    pub fn status(&self) -> (status: u8)
        ensures
            status == self@.status,
    {
        self.registers.status
    }

    /// The control register.
    pub fn ctrl(&self) -> (ctrl: u8)
        ensures
            ctrl == self@.ctrl,
    {
        self.registers.ctrl
    }

    /// The mask register.
    pub fn mask(&self) -> (mask: u8)
        ensures
            mask == self@.mask,
    {
        self.registers.mask
    }

    /// The scroll position latch.
    pub fn scroll(&self) -> (scroll: DoubleLatch)
        ensures
            scroll == self@.scroll,
    {
        self.registers.scroll
    }

    /// The address that the PPU address latch holds.
    pub fn ppu_addr(&self) -> (addr: Address)
        ensures
            addr.0 == latched_address(self@.addr),
    {
        read_ppuaddr(&self.registers.addr)
    }

    /// Read the status register. The five low bits of the register do not
    /// exist: a read finds there what the last access left on the bus. The
    /// read empties both latches and clears bit 7 of the status.
    fn read_status(&mut self) -> (value: u8)
        requires
            old(self).wf(),
        ensures
            final(self).wf(),
            value == status_byte(old(self)@.status, old(self)@.last_bus),
            final(self)@ == (PpuState {
                scroll: empty_latch(),
                addr: empty_latch(),
                status: old(self)@.status & 0x7F,
                ..old(self)@
            }),
    {
        let value = (self.registers.status & 0xE0) | (self.registers.last_bus & 0x1F);
        self.registers.scroll = DoubleLatch { first: None, second: None };
        self.registers.addr = DoubleLatch { first: None, second: None };
        self.registers.status = self.registers.status & 0x7F;
        value
    }

    /// Read the byte of the PPU's address space that the PPU address latch
    /// points at.
    fn read_data(&mut self) -> (value: u8)
        requires
            old(self).wf(),
        ensures
            final(self).wf(),
            ({
                let target = latched_address(old(self)@.addr);
                if target < PALETTE_START {
                    &&& value == M::read(
                        old(self)@.mapper,
                        old(self)@.vram,
                        old(self)@.palette,
                        target,
                    )
                    &&& final(self)@ == (PpuState {
                        mapper: M::after_read(
                            old(self)@.mapper,
                            old(self)@.vram,
                            old(self)@.palette,
                            target,
                        ),
                        ..old(self)@
                    })
                } else {
                    &&& value == old(self)@.palette[palette_index(target)]
                    &&& final(self)@ == old(self)@
                }
            }),
    {
        let target = read_ppuaddr(&self.registers.addr);
        if target.0 < PALETTE_START {
            self.mapper_load(target)
        } else {
            self.palette[(target.0 % 32) as usize]
        }
    }

    /// Write a byte of the PPU's address space where the PPU address latch
    /// points.
    fn write_data(&mut self, value: u8)
        requires
            old(self).wf(),
        ensures
            final(self).wf(),
            ({
                let target = latched_address(old(self)@.addr);
                if target < PALETTE_START {
                    let (mapper, vram, palette) = M::after_write(
                        old(self)@.mapper,
                        old(self)@.vram,
                        old(self)@.palette,
                        target,
                        value,
                    );
                    final(self)@ == (PpuState { mapper, vram, palette, ..old(self)@ })
                } else {
                    final(self)@ == (PpuState {
                        palette: old(self)@.palette.update(palette_index(target), value),
                        ..old(self)@
                    })
                }
            }),
    {
        let target = read_ppuaddr(&self.registers.addr);
        if target.0 < PALETTE_START {
            self.mapper_store(target, value);
        } else {
            self.palette[(target.0 % 32) as usize] = value;
        }
    }

    /// Set the status register, as the rendering side of the PPU does.
    pub fn set_status(&mut self, status: u8)
        requires
            old(self).wf(),
        ensures
            final(self).wf(),
            final(self)@ == (PpuState { status, ..old(self)@ }),
    {
        self.registers.status = status;
    }
}

/// The CPU reaches the PPU through its eight registers.
impl<M: PpuBus> Bus for Ppu<M> {
    open spec fn inv(&self) -> bool {
        self.wf()
    }

    open spec fn read(model: PpuState<M::V>, addr: u16) -> u8 {
        ppu_read::<M>(model, addr)
    }

    open spec fn after_read(model: PpuState<M::V>, addr: u16) -> PpuState<M::V> {
        ppu_after_read::<M>(model, addr)
    }

    open spec fn after_write(model: PpuState<M::V>, addr: u16, value: u8) -> PpuState<M::V> {
        ppu_after_write::<M>(model, addr, value)
    }

    fn load(&mut self, addr: Address) -> (value: u8) {
        assert(self.inv());
        assert(Self::read(self@, addr.0) == ppu_read::<M>(self@, addr.0));
        assert(Self::after_read(self@, addr.0) == ppu_after_read::<M>(self@, addr.0));
        let register = PpuRegister::from_address(addr);
        let value = match register {
            PpuRegister::Status => self.read_status(),
            PpuRegister::OamData => self.oam[self.registers.oam_addr as usize],
            PpuRegister::Data => self.read_data(),
            _ => self.registers.last_bus,
        };
        self.registers.last_bus = value;
        value
    }

    fn store(&mut self, addr: Address, value: u8) {
        assert(self.inv());
        assert(Self::after_write(self@, addr.0, value) == ppu_after_write::<M>(
            self@,
            addr.0,
            value,
        ));
        self.registers.last_bus = value;
        match PpuRegister::from_address(addr) {
            PpuRegister::Ctrl => {
                self.registers.ctrl = value;
            },
            PpuRegister::Mask => {
                self.registers.mask = value;
            },
            PpuRegister::Status => {
                // The status register is read-only.
            },
            PpuRegister::OamAddr => {
                self.registers.oam_addr = value;
            },
            PpuRegister::OamData => {
                self.oam[self.registers.oam_addr as usize] = value;
            },
            PpuRegister::Scroll => {
                double_write(&mut self.registers.scroll, value);
            },
            PpuRegister::Addr => {
                double_write(&mut self.registers.addr, value);
            },
            PpuRegister::Data => {
                self.write_data(value);
            },
        }
    }
}

} // verus!
