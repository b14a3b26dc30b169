//! A cycle-budgeted emulator core for the MOS 6502 as found in the NES,
//! together with the bus fabric that ties the CPU to RAM, the PPU register
//! port, the I/O registers and the cartridge mapper.

pub mod cart;
pub mod cpu;
pub mod io;
pub mod laws;
pub mod mapper;
pub mod mem;
pub mod nes;
pub mod ppu;
pub mod rom;
pub mod text;
