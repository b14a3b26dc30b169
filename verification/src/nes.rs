//! The console: the CPU and the devices on its bus.

use crate::cpu::semantics::{ran, ticked_times, CpuState};
use crate::cpu::registers::RegisterFile;
use crate::cpu::{Cpu, Fatal};
use crate::mapper::{init, ChrView, CpuMapper, PpuMapper};
use crate::mem::address::Address;
use crate::mem::bus::Bus;
use crate::mem::memory::{Memory, MemoryState};
use crate::mem::ram::Ram;
use crate::ppu::render::{
    name_table_drawn, pattern_tables_drawn, COLOR_TABLE_SIZE, FRAME_HEIGHT, FRAME_WIDTH,
};
use crate::ppu::{initial_ppu, Ppu, NAMETABLE_START};
use crate::rom::{nrom_fits, Rom, RomView};
use vstd::prelude::*;

verus! {

/// The number of CPU cycles in one frame of video.
pub const CPU_CYCLES_PER_FRAME: u32 = 29781;

/// The memory of the console.
pub type ConsoleMemory = Memory<CpuMapper, PpuMapper>;

/// The console.
pub struct Nes {
    pub cpu: Cpu,
    pub memory: Memory<CpuMapper, PpuMapper>,
}

/// The devices of a console into which the cartridge with the image `rom`
/// was just put: RAM and PPU at power-on.
pub open spec fn initial_memory(rom: RomView) -> MemoryState<Seq<u8>, ChrView> {
    MemoryState {
        ram: Seq::new(2048, |i: int| 0u8),
        ppu: initial_ppu(ChrView { chr: rom.chr, mirroring: rom.header.mirroring }),
        mapper: rom.prg,
    }
}

impl Nes {
    /// What holds of a console at all times.
    pub open spec fn wf(&self) -> bool {
        self.cpu.wf() && self.memory.inv()
    }

    /// A console with the cartridge for `rom` in it, after its reset: the
    /// program counter comes from the reset vector of the cartridge.
    pub fn new(rom: Rom) -> (nes: Nes)
        requires
            nrom_fits(rom@),
        ensures
            nes.wf(),
            (nes.cpu@, nes.memory@) == crate::cpu::semantics::reset::<ConsoleMemory>(
                crate::cpu::initial_state(),
                initial_memory(rom@),
            ),
    {
        let (mapper, ppu_mapper) = init(rom);
        let mut cpu = Cpu::new();
        let ram = Ram::new();
        let ppu = Ppu::with_mapper(ppu_mapper);
        let mut memory = Memory::new(ram, ppu, mapper);
        cpu.reset(&mut memory);
        Nes { cpu, memory }
    }

    /// Run the CPU alone, from `start` if there is one, for at most
    /// `max_steps` instructions. The result is `false` where they were all
    /// carried out.
    pub fn run_cpu(&mut self, start: Option<Address>, max_steps: u64) -> (outcome: Result<
        bool,
        Fatal,
    >)
        requires
            old(self).wf(),
        ensures
            final(self).wf(),
            (outcome, final(self).cpu@, final(self).memory@) == ran::<ConsoleMemory>(
                match start {
                    Some(addr) => CpuState {
                        registers: RegisterFile { pc: addr.0, ..old(self).cpu@.registers },
                        ..old(self).cpu@
                    },
                    None => old(self).cpu@,
                },
                old(self).memory@,
                None,
                max_steps as nat,
            ),
    {
        if let Some(start) = start {
            self.cpu.set_pc(start);
        }
        self.cpu.run_until(&mut self.memory, None, max_steps)
    }

    /// Run the console for one frame of video: the CPU for the clock
    /// cycles of a frame, and then the PPU, which draws the frame. Where a
    /// cycle is fatal, the frame is left as it was.
    pub fn run_one_frame(&mut self, frame: &mut [u8], colors: &[u8]) -> (outcome: Result<
        (),
        Fatal,
    >)
        requires
            old(self).wf(),
            colors@.len() >= COLOR_TABLE_SIZE,
            old(frame)@.len() >= FRAME_WIDTH * FRAME_HEIGHT * 4,
        ensures
            final(self).wf(),
            ({
                let (ticks, cpu, memory) = ticked_times::<ConsoleMemory>(
                    old(self).cpu@,
                    old(self).memory@,
                    CPU_CYCLES_PER_FRAME as nat,
                );
                let (picture, ppu) = name_table_drawn::<PpuMapper>(
                    memory.ppu,
                    old(frame)@,
                    NAMETABLE_START,
                    colors@,
                    960,
                );
                &&& outcome == ticks
                &&& final(self).cpu@ == cpu
                &&& outcome is Ok ==> final(frame)@ == picture && final(self).memory@
                    == (MemoryState { ppu, ..memory })
                &&& outcome is Err ==> final(frame)@ == old(frame)@ && final(self).memory@
                    == memory
            }),
    {
        let mut left: u32 = CPU_CYCLES_PER_FRAME;
        while left > 0
            invariant
                self.wf(),
                frame@ == old(frame)@,
                ticked_times::<ConsoleMemory>(self.cpu@, self.memory@, left as nat)
                    == ticked_times::<ConsoleMemory>(
                    old(self).cpu@,
                    old(self).memory@,
                    CPU_CYCLES_PER_FRAME as nat,
                ),
            decreases left,
        {
            match self.cpu.tick(&mut self.memory) {
                Err(fatal) => {
                    return Err(fatal);
                },
                Ok(_) => {},
            }
            left -= 1;
        }
        self.memory.ppu.tick(frame, colors);
        Ok(())
    }

    /// The width and the height of the picture in pixels.
    pub fn size(&self) -> (size: (u32, u32))
        ensures
            size == (256u32, 240u32),
    {
        (256, 240)
    }
}

/// A console that shows the pattern tables of its cartridge, not the
/// picture of the game.
pub struct ShowPatternUi {
    pub nes: Nes,
}

impl ShowPatternUi {
    /// The pattern table display of a console.
    pub fn new(nes: Nes) -> (ui: ShowPatternUi)
        ensures
            ui.nes == nes,
    {
        ShowPatternUi { nes }
    }

    /// The width and the height of the display in pixels: room for the two
    /// pattern tables of 128 by 128 pixels side by side.
    pub fn size(&self) -> (size: (u32, u32))
        ensures
            size == (256u32, 128u32),
    {
        (256, 128)
    }

    /// Draw the two pattern tables into a frame.
    pub fn update(&mut self, frame: &mut [u8], colors: &[u8])
        requires
            old(self).nes.wf(),
            colors@.len() >= COLOR_TABLE_SIZE,
            old(frame)@.len() >= FRAME_WIDTH * 128 * 4,
        ensures
            final(self).nes.wf(),
            final(self).nes.cpu == old(self).nes.cpu,
            final(self).nes.memory.ram == old(self).nes.memory.ram,
            final(self).nes.memory.mapper == old(self).nes.memory.mapper,
            (final(frame)@, final(self).nes.memory.ppu@) == pattern_tables_drawn::<PpuMapper>(
                old(self).nes.memory.ppu@,
                old(frame)@,
                colors@,
                512,
            ),
    {
        self.nes.memory.ppu.render_pattern_table(frame, colors);
    }
}

} // verus!
