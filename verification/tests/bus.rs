use nes::cart::Cartridge;
use nes::cpu::registers::{CARRY, NEGATIVE, ZERO};
use nes::cpu::{AddressingMode, Cpu, Fatal, Instruction, Operation};
use nes::io::IoRegister;
use nes::mapper::{init, CpuMapper0, Mapper, Mapper0, PpuMapper0};
use nes::mem::bus::{load_range, load_word, store_range};
use nes::mem::{Address, Bus, Memory, Ram};
use nes::nes::{Nes, ShowPatternUi};
use nes::ppu::render::{greyscale_palette, tile_coords, Palette, Pixel, Tile};
use nes::ppu::{double_write, read_ppuaddr, DoubleLatch, Ppu, PpuBus, PpuRegister, Vram};
use nes::rom::{parse_rom, Header, Mirroring, Rom, RomError};

fn header(mirroring: Mirroring) -> Header {
    Header {
        num_prg_banks: 1,
        num_chr_banks: 1,
        num_prg_ram_banks: 0,
        mirroring,
        mapper: 0,
        has_battery: false,
        has_trainer: false,
        is_ines_v2: false,
    }
}

/// An image with 16 KiB of program ROM, in which every byte is the low byte
/// of its index but for the bytes of `program` at the start and the reset
/// vector, which points at 0x8000.
fn rom(program: &[u8], mirroring: Mirroring) -> Rom {
    let mut prg: Vec<u8> = (0..0x4000usize).map(|i| i as u8).collect();
    prg[..program.len()].copy_from_slice(program);
    prg[0x3FFC] = 0x00;
    prg[0x3FFD] = 0x80;
    let chr: Vec<u8> = (0..0x2000usize).map(|i| (i / 16) as u8).collect();
    Rom { header: header(mirroring), prg, chr }
}

/// A table of colors in which color `n` is red `3n`, green `3n + 1` and
/// blue `3n + 2`.
fn colors() -> Vec<u8> {
    (0..192usize).map(|i| i as u8).collect()
}

fn memory(program: &[u8]) -> Memory<CpuMapper0, PpuMapper0> {
    let (cpu_side, ppu_side) = init(rom(program, Mirroring::Horizonal));
    Memory::new(Ram::new(), Ppu::with_mapper(ppu_side), cpu_side)
}

#[test]
fn ram_is_mirrored_every_2_kib() {
    let mut ram = Ram::new();
    assert_eq!(ram.load(Address(0x0000)), 0);
    ram.store(Address(0x0001), 0x11);
    assert_eq!(ram.load(Address(0x0001)), 0x11);
    assert_eq!(ram.load(Address(0x0801)), 0x11);
    assert_eq!(ram.load(Address(0x1801)), 0x11);
    ram.store(Address(0x1FFF), 0x22);
    assert_eq!(ram.load(Address(0x07FF)), 0x22);
    assert_eq!(ram.load(Address(0x07FE)), 0x00);
}

#[test]
fn words_and_ranges() {
    let mut ram = Ram::new();
    store_range(&mut ram, Address(0x07FE), &[1, 2, 3, 4]);
    assert_eq!(ram.load(Address(0x07FE)), 1);
    assert_eq!(ram.load(Address(0x07FF)), 2);
    assert_eq!(ram.load(Address(0x0000)), 3);
    assert_eq!(ram.load(Address(0x0001)), 4);
    let mut output = [0u8; 4];
    load_range(&mut ram, Address(0x0FFE), &mut output);
    assert_eq!(output, [1, 2, 3, 4]);
    assert_eq!(load_word(&mut ram, Address(0x07FF), Address(0x0000)), Address(0x0302));
}

#[test]
fn io_registers_have_their_addresses() {
    assert_eq!(IoRegister::from_address(Address(0x4000)), Some(IoRegister::Sq1Vol));
    assert_eq!(IoRegister::from_address(Address(0x4008)), Some(IoRegister::TriLinear));
    assert_eq!(IoRegister::from_address(Address(0x4009)), None);
    assert_eq!(IoRegister::from_address(Address(0x400D)), None);
    assert_eq!(IoRegister::from_address(Address(0x4014)), Some(IoRegister::OamDma));
    assert_eq!(IoRegister::from_address(Address(0x4017)), Some(IoRegister::Joy2));
    assert_eq!(IoRegister::from_address(Address(0x4018)), None);
    assert_eq!(IoRegister::from_address(Address(0x3FFF)), None);
    assert_eq!(IoRegister::OamDma.name(), "OAMDMA");
    assert_eq!(IoRegister::Joy1.name(), "JOY1");
}

#[test]
fn ppu_registers_are_mirrored_every_8_bytes() {
    assert_eq!(PpuRegister::from_address(Address(0x2000)), PpuRegister::Ctrl);
    assert_eq!(PpuRegister::from_address(Address(0x2002)), PpuRegister::Status);
    assert_eq!(PpuRegister::from_address(Address(0x2007)), PpuRegister::Data);
    assert_eq!(PpuRegister::from_address(Address(0x2008)), PpuRegister::Ctrl);
    assert_eq!(PpuRegister::from_address(Address(0x3FFE)), PpuRegister::Addr);
    assert_eq!(PpuRegister::Scroll.name(), "PPUSCROLL");
}

#[test]
fn two_step_latch() {
    let mut latch = DoubleLatch { first: None, second: None };
    assert_eq!(read_ppuaddr(&latch), Address(0x0000));
    double_write(&mut latch, 0x21);
    assert_eq!(latch, DoubleLatch { first: Some(0x21), second: None });
    assert_eq!(read_ppuaddr(&latch), Address(0x2100));
    double_write(&mut latch, 0x08);
    assert_eq!(latch, DoubleLatch { first: Some(0x21), second: Some(0x08) });
    assert_eq!(read_ppuaddr(&latch), Address(0x2108));
    double_write(&mut latch, 0xFF);
    assert_eq!(latch, DoubleLatch { first: Some(0x21), second: Some(0x08) });
}

#[test]
fn ppu_write_only_registers_read_the_bus_latch() {
    let (_, ppu_side) = init(rom(&[], Mirroring::Horizonal));
    let mut ppu = Ppu::with_mapper(ppu_side);
    assert_eq!(ppu.load(Address(0x2000)), 0);
    ppu.store(Address(0x2000), 0x80);
    assert_eq!(ppu.ctrl(), 0x80);
    assert_eq!(ppu.last_bus(), 0x80);
    assert_eq!(ppu.load(Address(0x2001)), 0x80);
    ppu.store(Address(0x2001), 0x1E);
    assert_eq!(ppu.mask(), 0x1E);
    assert_eq!(ppu.load(Address(0x2000)), 0x1E);
    assert_eq!(ppu.load(Address(0x2005)), 0x1E);
    assert_eq!(ppu.load(Address(0x2006)), 0x1E);
    assert_eq!(ppu.load(Address(0x2003)), 0x1E);
}

#[test]
fn ppu_status_read() {
    let (_, ppu_side) = init(rom(&[], Mirroring::Horizonal));
    let mut ppu = Ppu::with_mapper(ppu_side);
    ppu.set_status(0xFF);
    ppu.store(Address(0x2005), 0x12);
    ppu.store(Address(0x2006), 0x3F);
    // The last value on the bus was 0x3F: its five low bits show in the
    // unused bits of the status.
    assert_eq!(ppu.load(Address(0x2002)), 0xE0 | 0x1F);
    assert_eq!(ppu.status(), 0x7F);
    assert_eq!(ppu.scroll(), DoubleLatch { first: None, second: None });
    assert_eq!(ppu.ppu_addr(), Address(0));
    assert_eq!(ppu.last_bus(), 0xFF);
    // A write to the status register only leaves its value on the bus.
    ppu.store(Address(0x2002), 0x05);
    assert_eq!(ppu.status(), 0x7F);
    assert_eq!(ppu.load(Address(0x2002)), 0x60 | 0x05);
    assert_eq!(ppu.status(), 0x7F);
}

#[test]
fn ppu_latches_take_two_writes() {
    let (_, ppu_side) = init(rom(&[], Mirroring::Horizonal));
    let mut ppu = Ppu::with_mapper(ppu_side);
    ppu.store(Address(0x2005), 0x10);
    ppu.store(Address(0x2005), 0x20);
    ppu.store(Address(0x2005), 0x30);
    assert_eq!(ppu.scroll(), DoubleLatch { first: Some(0x10), second: Some(0x20) });
    ppu.store(Address(0x2006), 0x23);
    ppu.store(Address(0x2006), 0x45);
    ppu.store(Address(0x2006), 0x67);
    assert_eq!(ppu.ppu_addr(), Address(0x2345));
    let _ = ppu.load(Address(0x2002));
    ppu.store(Address(0x2006), 0x3F);
    assert_eq!(ppu.ppu_addr(), Address(0x3F00));
}

#[test]
fn ppu_sprite_memory() {
    let (_, ppu_side) = init(rom(&[], Mirroring::Horizonal));
    let mut ppu = Ppu::with_mapper(ppu_side);
    ppu.store(Address(0x2003), 0x42);
    ppu.store(Address(0x2004), 0x99);
    assert_eq!(ppu.oam()[0x42], 0x99);
    ppu.store(Address(0x2000), 0x00);
    assert_eq!(ppu.load(Address(0x2004)), 0x99);
    assert_eq!(ppu.last_bus(), 0x99);
    let mut sprites = [0u8; 256];
    sprites[0x42] = 0x77;
    sprites[0xFF] = 0x01;
    ppu.oam_dma(sprites);
    assert_eq!(ppu.load(Address(0x2004)), 0x77);
    assert_eq!(ppu.oam()[0xFF], 0x01);
}

#[test]
fn ppu_data_goes_through_the_ppu_bus() {
    let (_, ppu_side) = init(rom(&[], Mirroring::Horizonal));
    let mut ppu = Ppu::with_mapper(ppu_side);
    // Character ROM at 0x0123.
    ppu.store(Address(0x2006), 0x01);
    ppu.store(Address(0x2006), 0x23);
    assert_eq!(ppu.load(Address(0x2007)), 0x12);
    // A write to character ROM is dropped.
    ppu.store(Address(0x2007), 0xAA);
    assert_eq!(ppu.load(Address(0x2007)), 0x12);
    // Name table 0 at 0x2005.
    let _ = ppu.load(Address(0x2002));
    ppu.store(Address(0x2006), 0x20);
    ppu.store(Address(0x2006), 0x05);
    ppu.store(Address(0x2007), 0xBB);
    assert_eq!(ppu.load(Address(0x2007)), 0xBB);
    // Horizontally mirrored, name table 1 at 0x2405 is the same.
    let _ = ppu.load(Address(0x2002));
    ppu.store(Address(0x2006), 0x24);
    ppu.store(Address(0x2006), 0x05);
    assert_eq!(ppu.load(Address(0x2007)), 0xBB);
    // Name table 2 at 0x2805 is another.
    let _ = ppu.load(Address(0x2002));
    ppu.store(Address(0x2006), 0x28);
    ppu.store(Address(0x2006), 0x05);
    assert_eq!(ppu.load(Address(0x2007)), 0x00);
}

#[test]
fn ppu_palette_shows_every_32_bytes() {
    let (_, ppu_side) = init(rom(&[], Mirroring::Horizonal));
    let mut ppu = Ppu::with_mapper(ppu_side);
    ppu.store(Address(0x2006), 0x3F);
    ppu.store(Address(0x2006), 0x03);
    ppu.store(Address(0x2007), 0x2C);
    assert_eq!(ppu.palette()[3], 0x2C);
    let _ = ppu.load(Address(0x2002));
    ppu.store(Address(0x2006), 0x3F);
    ppu.store(Address(0x2006), 0xE3);
    assert_eq!(ppu.load(Address(0x2007)), 0x2C);
    ppu.store(Address(0x2007), 0x11);
    assert_eq!(ppu.palette()[3], 0x11);
}

#[test]
fn nrom_128_shows_twice() {
    let (mut cpu_side, _) = init(rom(&[0xA9, 0x05], Mirroring::Horizonal));
    assert_eq!(cpu_side.load(Address(0x8000)), 0xA9);
    assert_eq!(cpu_side.load(Address(0xC000)), 0xA9);
    assert_eq!(cpu_side.load(Address(0x8001)), 0x05);
    assert_eq!(cpu_side.load(Address(0xC001)), 0x05);
    assert_eq!(cpu_side.load(Address(0x8123)), 0x23);
    assert_eq!(cpu_side.load(Address(0xFFFC)), 0x00);
    assert_eq!(cpu_side.load(Address(0xFFFD)), 0x80);
    assert_eq!(cpu_side.load(Address(0xBFFD)), 0x80);
    cpu_side.store(Address(0x8000), 0xFF);
    assert_eq!(cpu_side.load(Address(0x8000)), 0xA9);
}

#[test]
fn nrom_256_fills_the_upper_half() {
    let mut image = rom(&[], Mirroring::Vertical);
    image.prg = (0..0x8000usize).map(|i| (i >> 8) as u8).collect();
    assert!(image.fits_nrom());
    let (mut cpu_side, _) = Mapper0::from_rom(image);
    assert_eq!(cpu_side.load(Address(0x8000)), 0x00);
    assert_eq!(cpu_side.load(Address(0xC000)), 0x40);
    assert_eq!(cpu_side.load(Address(0xFFFF)), 0x7F);
}

#[test]
fn rom_sizes_are_checked() {
    let mut image = rom(&[], Mirroring::Vertical);
    assert!(image.fits_nrom());
    image.prg.push(0);
    assert!(!image.fits_nrom());
    let mut image = rom(&[], Mirroring::Vertical);
    image.chr.pop();
    assert!(!image.fits_nrom());
}

#[test]
fn name_table_mirroring() {
    let mut vram = Vram::new();
    let mut palette = [0u8; 32];
    let (_, mut vertical) = init(rom(&[], Mirroring::Vertical));
    vertical.ppu_store(&mut vram, &mut palette, Address(0x2001), 0x11);
    assert_eq!(vram.0[0x001], 0x11);
    assert_eq!(vertical.ppu_load(&vram, &palette, Address(0x2801)), 0x11);
    assert_eq!(vertical.ppu_load(&vram, &palette, Address(0x3001)), 0x11);
    vertical.ppu_store(&mut vram, &mut palette, Address(0x2C02), 0x22);
    assert_eq!(vram.0[0x402], 0x22);
    assert_eq!(vertical.ppu_load(&vram, &palette, Address(0x2402)), 0x22);

    let mut vram = Vram::new();
    let (_, mut horizontal) = init(rom(&[], Mirroring::Horizonal));
    horizontal.ppu_store(&mut vram, &mut palette, Address(0x2401), 0x33);
    assert_eq!(vram.0[0x001], 0x33);
    assert_eq!(horizontal.ppu_load(&vram, &palette, Address(0x2001)), 0x33);
    horizontal.ppu_store(&mut vram, &mut palette, Address(0x2C02), 0x44);
    assert_eq!(vram.0[0x402], 0x44);
    assert_eq!(horizontal.ppu_load(&vram, &palette, Address(0x2802)), 0x44);
    assert_eq!(horizontal.ppu_load(&vram, &palette, Address(0x3802)), 0x44);

    let mut vram = Vram::new();
    let (_, mut four) = init(rom(&[], Mirroring::FourScreen));
    four.ppu_store(&mut vram, &mut palette, Address(0x2801), 0x55);
    assert_eq!(vram.0[0x001], 0x55);
    four.ppu_store(&mut vram, &mut palette, Address(0x3F1F), 0x66);
    assert_eq!(palette[0x1F], 0x66);
    assert_eq!(four.ppu_load(&vram, &palette, Address(0x3FFF)), 0x66);
    assert_eq!(four.ppu_load(&vram, &palette, Address(0x1FFF)), 0xFF);
}

#[test]
fn cartridge_sits_on_both_buses() {
    let mut cartridge = Cartridge::new(rom(&[0xA9, 0x05], Mirroring::Vertical));
    assert_eq!(cartridge.load(Address(0xC001)), 0x05);
    cartridge.store(Address(0xC001), 0x06);
    assert_eq!(cartridge.load(Address(0x8001)), 0x05);
    let mut vram = Vram::new();
    let mut palette = [0u8; 32];
    assert_eq!(cartridge.ppu_load(&vram, &palette, Address(0x0120)), 0x12);
    cartridge.ppu_store(&mut vram, &mut palette, Address(0x2400), 0x77);
    assert_eq!(vram.0[0x400], 0x77);
    assert_eq!(cartridge.ppu_load(&vram, &palette, Address(0x2C00)), 0x77);
}

#[test]
fn memory_routes_by_address() {
    let mut memory = memory(&[0xA9, 0x05]);
    // RAM, mirrored.
    memory.store(Address(0x0002), 0x11);
    assert_eq!(memory.load(Address(0x0802)), 0x11);
    assert_eq!(memory.load(Address(0x1FFF)), 0x00);
    // PPU registers, mirrored.
    memory.store(Address(0x2008), 0x90);
    assert_eq!(memory.ppu.ctrl(), 0x90);
    memory.store(Address(0x3FFB), 0x10);
    memory.store(Address(0x3FFC), 0x20);
    assert_eq!(memory.ppu.oam()[0x10], 0x20);
    // I/O registers read as zero; the unused and the disabled addresses
    // read what was last on the bus.
    assert_eq!(memory.load(Address(0x4000)), 0x00);
    assert_eq!(memory.load(Address(0x4016)), 0x00);
    assert_eq!(memory.load(Address(0x4017)), 0x00);
    assert_eq!(memory.load(Address(0x4009)), 0x20);
    assert_eq!(memory.load(Address(0x4018)), 0x20);
    assert_eq!(memory.load(Address(0x401F)), 0x20);
    assert_eq!(memory.read_io_register(Address(0x4015)), 0x00);
    assert_eq!(memory.read_io_register(Address(0x401A)), 0x20);
    // The cartridge.
    assert_eq!(memory.load(Address(0x8000)), 0xA9);
    assert_eq!(memory.load(Address(0xC001)), 0x05);
    assert_eq!(memory.load(Address(0x4020)), 0x20);
    memory.store(Address(0x8000), 0x00);
    assert_eq!(memory.load(Address(0x8000)), 0xA9);
    // Stores to the I/O registers other than sprite DMA change nothing.
    memory.store(Address(0x4000), 0xFF);
    memory.store(Address(0x4018), 0xFF);
    assert_eq!(memory.load(Address(0x0002)), 0x11);
    assert_eq!(memory.ppu.last_bus(), 0x20);
}

#[test]
fn sprite_dma_copies_a_page() {
    let mut memory = memory(&[]);
    for i in 0..256u16 {
        memory.store(Address(0x0300 + i), (255 - i) as u8);
    }
    memory.store(Address(0x4014), 0x03);
    for i in 0..256usize {
        assert_eq!(memory.ppu.oam()[i], (255 - i) as u8);
    }
    // A page of the cartridge.
    memory.write_io_register(Address(0x4014), 0x81);
    for i in 0..256usize {
        assert_eq!(memory.ppu.oam()[i], i as u8);
    }
    // Any other register leaves the sprite memory alone.
    memory.write_io_register(Address(0x4015), 0x03);
    assert_eq!(memory.ppu.oam()[1], 1);
}

#[test]
fn console_starts_at_the_reset_vector() {
    // LDA #$05, STA $0010, JMP $8005.
    let program = [0xA9, 0x05, 0x8D, 0x10, 0x00, 0x4C, 0x05, 0x80];
    let mut nes = Nes::new(rom(&program, Mirroring::Horizonal));
    assert_eq!(nes.cpu.registers().pc, Address(0x8000));
    assert_eq!(nes.cpu.cycle(), 7);
    let outcome = nes.run_cpu(None, 100);
    assert_eq!(outcome, Err(Fatal::InfiniteLoop { pc: Address(0x8005) }));
    assert_eq!(nes.cpu.registers().a, 0x05);
    assert_eq!(nes.memory.load(Address(0x0010)), 0x05);
}

#[test]
fn console_runs_from_a_start_address() {
    // At 0x8010: INX, INX, INX.
    let mut program = vec![0xEA; 0x13];
    program[0x10] = 0xE8;
    program[0x11] = 0xE8;
    program[0x12] = 0xE8;
    let mut nes = Nes::new(rom(&program, Mirroring::Horizonal));
    let outcome = nes.run_cpu(Some(Address(0x8010)), 2);
    assert_eq!(outcome, Ok(false));
    assert_eq!(nes.cpu.registers().x, 2);
    assert_eq!(nes.cpu.registers().pc, Address(0x8012));
}

#[test]
fn console_runs_one_frame() {
    // INX, JMP $8000: five cycles a round.
    let program = [0xE8, 0x4C, 0x00, 0x80];
    let mut nes = Nes::new(rom(&program, Mirroring::Horizonal));
    assert_eq!(nes.size(), (256, 240));
    let mut frame = vec![0u8; 256 * 240 * 4];
    let colors = colors();
    assert_eq!(nes.run_one_frame(&mut frame, &colors), Ok(()));
    assert_eq!(nes.cpu.cycle(), 7 + 29781);
    // Every tile of the empty name table is tile 0, whose pixels are all 0:
    // the whole picture has the background color, which is color 0.
    for pixel in frame.chunks(4) {
        assert_eq!(pixel, &[0, 1, 2, 0xFF]);
    }
    // 29781 cycles are 5956 whole rounds and one cycle more, on which the
    // next INX takes effect.
    assert_eq!(nes.cpu.registers().x, (5957 % 256) as u8);
    assert_eq!(nes.cpu.cycles_remaining(), 1);
}

#[test]
fn console_frame_ends_at_a_fatal_instruction() {
    let program = [0xE8, 0x02];
    let mut nes = Nes::new(rom(&program, Mirroring::Horizonal));
    let mut frame = vec![0x55u8; 256 * 240 * 4];
    assert_eq!(nes.run_one_frame(&mut frame, &colors()), Err(Fatal::Halted));
    assert!(frame.iter().all(|byte| *byte == 0x55));
    assert_eq!(nes.cpu.registers().x, 1);
    assert_eq!(nes.cpu.cycle(), 7 + 3);
}

#[test]
fn pattern_table_display() {
    let nes = Nes::new(rom(&[], Mirroring::Horizonal));
    let ui = ShowPatternUi::new(nes);
    assert_eq!(ui.size(), (256, 128));
    assert_eq!(ui.nes.cpu.registers().pc, Address(0x8000));
}

#[test]
fn cpu_runs_on_the_composed_memory() {
    // LDA #$42, STA $2003 (OAMADDR), LDA #$99, STA $2004 (OAMDATA).
    let program = [0xA9, 0x42, 0x8D, 0x03, 0x20, 0xA9, 0x99, 0x8D, 0x04, 0x20];
    let mut memory = memory(&program);
    let mut cpu = Cpu::new();
    cpu.reset(&mut memory);
    for _ in 0..4 {
        cpu.step(&mut memory).unwrap();
    }
    assert_eq!(memory.ppu.oam()[0x42], 0x99);
}

fn image(prg_banks: u8, chr_banks: u8, flags6: u8, flags7: u8, trainer: bool) -> Vec<u8> {
    let mut bytes = vec![0x4E, 0x45, 0x53, 0x1A, prg_banks, chr_banks, flags6, flags7, 2];
    bytes.extend_from_slice(&[0; 7]);
    if trainer {
        bytes.extend_from_slice(&[0xEE; 512]);
    }
    bytes.extend((0..prg_banks as usize * 16384).map(|i| (i % 251) as u8));
    bytes.extend((0..chr_banks as usize * 8192).map(|i| (i % 241) as u8));
    bytes
}

#[test]
fn parse_an_image() {
    let bytes = image(2, 1, 0x01, 0x00, false);
    let rom = parse_rom(&bytes).unwrap();
    assert_eq!(
        rom.header,
        Header {
            num_prg_banks: 2,
            num_chr_banks: 1,
            num_prg_ram_banks: 2,
            mirroring: Mirroring::Vertical,
            mapper: 0,
            has_battery: false,
            has_trainer: false,
            is_ines_v2: false,
        }
    );
    assert_eq!(rom.prg.len(), 32768);
    assert_eq!(rom.chr.len(), 8192);
    assert_eq!(rom.prg[0], 0);
    assert_eq!(rom.prg[300], (300 % 251) as u8);
    assert_eq!(rom.chr[0], 0);
    assert_eq!(rom.chr[8191], (8191 % 241) as u8);
    assert!(rom.fits_nrom());
}

#[test]
fn parse_skips_a_trainer_and_ignores_a_tail() {
    let mut bytes = image(1, 1, 0x04, 0x00, true);
    bytes.extend_from_slice(&[0xAB; 10]);
    let rom = parse_rom(&bytes).unwrap();
    assert!(rom.header.has_trainer);
    assert_eq!(rom.prg.len(), 16384);
    assert_eq!(rom.prg[1], 1);
    assert_eq!(rom.chr[1], 1);
    assert_eq!(rom.chr.len(), 8192);
}

#[test]
fn image_parse_errors() {
    assert_eq!(parse_rom(&[]).unwrap_err(), RomError::BadMagic);
    assert_eq!(parse_rom(&[0x4E, 0x45, 0x53]).unwrap_err(), RomError::BadMagic);
    assert_eq!(parse_rom(b"NES\x1B0123456789AB").unwrap_err(), RomError::BadMagic);
    assert_eq!(parse_rom(b"NES\x1A").unwrap_err(), RomError::Truncated);
    assert_eq!(parse_rom(b"NES\x1A0123456789A").unwrap_err(), RomError::Truncated);
    let mut bytes = image(1, 1, 0x00, 0x00, false);
    bytes.pop();
    assert_eq!(parse_rom(&bytes).unwrap_err(), RomError::Truncated);
    let mut bytes = image(1, 0, 0x04, 0x00, false);
    assert_eq!(parse_rom(&bytes).unwrap_err(), RomError::Truncated);
    bytes.extend_from_slice(&[0; 512]);
    assert!(parse_rom(&bytes).is_ok());
}

#[test]
fn header_flags() {
    let plain = Header::new(1, 2, 3, 0x0000);
    assert_eq!(plain.num_prg_banks, 1);
    assert_eq!(plain.num_chr_banks, 2);
    assert_eq!(plain.num_prg_ram_banks, 3);
    assert_eq!(plain.mirroring, Mirroring::Horizonal);
    assert_eq!(plain.mapper, 0);
    assert!(!plain.has_battery && !plain.has_trainer && !plain.is_ines_v2);
    assert_eq!(Header::new(0, 0, 0, 0x0001).mirroring, Mirroring::Vertical);
    assert_eq!(Header::new(0, 0, 0, 0x0008).mirroring, Mirroring::FourScreen);
    assert_eq!(Header::new(0, 0, 0, 0x0009).mirroring, Mirroring::FourScreen);
    assert!(Header::new(0, 0, 0, 0x0002).has_battery);
    assert!(Header::new(0, 0, 0, 0x0004).has_trainer);
    assert!(Header::new(0, 0, 0, 0x0002).is_ines_v2);
    assert!(!Header::new(0, 0, 0, 0x0003).is_ines_v2);
    assert_eq!(Header::new(0, 0, 0, 0x0010).mapper, 0x01);
    assert_eq!(Header::new(0, 0, 0, 0x00F0).mapper, 0x0F);
    assert_eq!(Header::new(0, 0, 0, 0x1000).mapper, 0x10);
    assert_eq!(Header::new(0, 0, 0, 0xA040).mapper, 0xA4);
    assert_eq!(Header::new(0, 0, 0, 0xFFFF).mapper, 0xFF);
}

#[test]
fn pixels_and_colors() {
    let palette = Palette { background: 1, color1: 2, color2: 3, color3: 0x7F };
    assert_eq!(Pixel::from_bits(false, false).color(palette), 1);
    assert_eq!(Pixel::from_bits(true, false).color(palette), 2);
    assert_eq!(Pixel::from_bits(false, true).color(palette), 3);
    assert_eq!(Pixel::from_bits(true, true).color(palette), 0x7F);
    let colors = colors();
    assert_eq!(Pixel::from_bits(false, false).to_rgba(palette, &colors), [3, 4, 5, 0xFF]);
    // Only six bits of a color count: 0x7F is color 0x3F.
    assert_eq!(Pixel::from_bits(true, true).to_rgba(palette, &colors), [189, 190, 191, 0xFF]);
    assert_eq!(
        greyscale_palette(),
        Palette { background: 0x0F, color1: 0x00, color2: 0x10, color3: 0x30 }
    );
    assert_eq!(tile_coords(0), (0, 0));
    assert_eq!(tile_coords(33), (1, 1));
    assert_eq!(tile_coords(255), (31, 7));
}

#[test]
fn tiles_are_drawn_pixel_by_pixel() {
    let mut tile = Tile { low: [0; 8], high: [0; 8] };
    tile.low[0] = 0b1000_0001;
    tile.high[0] = 0b1000_0000;
    tile.high[7] = 0b0000_0001;
    assert_eq!(tile.get_pixel(0, 0).color(greyscale_palette()), 0x30);
    assert_eq!(tile.get_pixel(7, 0).color(greyscale_palette()), 0x00);
    assert_eq!(tile.get_pixel(7, 7).color(greyscale_palette()), 0x10);
    assert_eq!(tile.get_pixel(3, 3).color(greyscale_palette()), 0x0F);

    let colors = colors();
    let palette = Palette { background: 0, color1: 1, color2: 2, color3: 3 };
    let width = 16;
    let mut frame = vec![0xEEu8; width * 10 * 4];
    tile.draw_at(&mut frame, width, 4, 2, palette, &colors);
    let pixel = |x: usize, y: usize| frame[(y * width + x) * 4..(y * width + x) * 4 + 4].to_vec();
    assert_eq!(pixel(4, 2), vec![9, 10, 11, 0xFF]);
    assert_eq!(pixel(11, 2), vec![3, 4, 5, 0xFF]);
    assert_eq!(pixel(11, 9), vec![6, 7, 8, 0xFF]);
    assert_eq!(pixel(5, 3), vec![0, 1, 2, 0xFF]);
    // What lies outside the tile stays as it was.
    assert_eq!(pixel(3, 2), vec![0xEE; 4]);
    assert_eq!(pixel(12, 2), vec![0xEE; 4]);
    assert_eq!(pixel(4, 1), vec![0xEE; 4]);

    let mut screen = vec![0xEEu8; 256 * 240 * 4];
    tile.draw(&mut screen, 33, palette, &colors);
    let at = (8 * 256 + 8) * 4;
    assert_eq!(&screen[at..at + 4], &[9, 10, 11, 0xFF]);
    assert_eq!(&screen[at - 4..at], &[0xEE; 4]);
}

#[test]
fn tiles_and_palettes_are_loaded_over_the_ppu_bus() {
    let (_, ppu_side) = init(rom(&[], Mirroring::Horizonal));
    let mut ppu = Ppu::with_mapper(ppu_side);
    // In the character ROM of the image every byte is its tile number.
    let tile = ppu.load_tile(Address(0x0000), 5);
    assert_eq!(tile.low, [5; 8]);
    assert_eq!(tile.high, [5; 8]);
    let tile = ppu.load_tile(Address(0x1000), 7);
    assert_eq!(tile.low, [7; 8]);

    for (i, color) in [0x21u8, 0x01, 0x02, 0x03, 0x00, 0x05, 0x06, 0x07].iter().enumerate() {
        ppu.mapper_store(Address(0x3F00 + i as u16), *color);
    }
    ppu.mapper_store(Address(0x3F11), 0x31);
    assert_eq!(
        ppu.load_palette(0, false),
        Palette { background: 0x21, color1: 0x01, color2: 0x02, color3: 0x03 }
    );
    assert_eq!(
        ppu.load_palette(1, false),
        Palette { background: 0x21, color1: 0x05, color2: 0x06, color3: 0x07 }
    );
    assert_eq!(ppu.load_palette(0, true).color1, 0x31);

    // The attribute byte for tiles 0 to 3 of rows 0 to 3 is the first of
    // the table.
    ppu.mapper_store(Address(0x23C0), 0b11_10_01_00);
    assert_eq!(ppu.get_attribute(Address(0x23C0), 0), 0);
    assert_eq!(ppu.get_attribute(Address(0x23C0), 64), 1);
    assert_eq!(ppu.get_attribute(Address(0x23C0), 2), 2);
    assert_eq!(ppu.get_attribute(Address(0x23C0), 66), 3);
    ppu.mapper_store(Address(0x23C9), 0b00_00_00_11);
    assert_eq!(ppu.get_attribute(Address(0x23C0), 128 + 4), 3);
}

#[test]
fn name_table_picture() {
    let (_, ppu_side) = init(rom(&[], Mirroring::Horizonal));
    let mut ppu = Ppu::with_mapper(ppu_side);
    // The tile at the top left is tile 0xFF, all of whose pixels are 3.
    ppu.mapper_store(Address(0x2000), 0xFF);
    ppu.mapper_store(Address(0x3F00), 0x10);
    ppu.mapper_store(Address(0x3F03), 0x20);
    let mut frame = vec![0u8; 256 * 240 * 4];
    ppu.tick(&mut frame, &colors());
    assert_eq!(&frame[0..4], &[0x60, 0x61, 0x62, 0xFF]);
    assert_eq!(&frame[7 * 4..8 * 4], &[0x60, 0x61, 0x62, 0xFF]);
    assert_eq!(&frame[8 * 4..9 * 4], &[0x30, 0x31, 0x32, 0xFF]);
    let at = (7 * 256 + 7) * 4;
    assert_eq!(&frame[at..at + 4], &[0x60, 0x61, 0x62, 0xFF]);
    let at = (8 * 256) * 4;
    assert_eq!(&frame[at..at + 4], &[0x30, 0x31, 0x32, 0xFF]);
}

#[test]
fn pattern_table_picture() {
    let nes = Nes::new(rom(&[], Mirroring::Horizonal));
    let mut ui = ShowPatternUi::new(nes);
    let mut frame = vec![0u8; 256 * 128 * 4];
    ui.update(&mut frame, &colors());
    // Tile 0 is all zeros: black, color 0x0F.
    assert_eq!(&frame[0..4], &[45, 46, 47, 0xFF]);
    // Tile 1 has the row 0b0000_0001 in both planes: its last column is
    // white, color 0x30, and the others black.
    assert_eq!(&frame[8 * 4..9 * 4], &[45, 46, 47, 0xFF]);
    assert_eq!(&frame[15 * 4..16 * 4], &[0x90, 0x91, 0x92, 0xFF]);
    // The second table starts 128 pixels to the right, and is tile for
    // tile as the first in this image.
    assert_eq!(&frame[(128 + 15) * 4..(128 + 16) * 4], &[0x90, 0x91, 0x92, 0xFF]);
}

/// A PPU whose status register holds `status`, to stand for a device that
/// a load changes: a read of the status clears its bit 7.
fn ppu_with_status(status: u8) -> Ppu<PpuMapper0> {
    let (_, ppu_side) = init(rom(&[], Mirroring::Horizonal));
    let mut ppu = Ppu::with_mapper(ppu_side);
    ppu.set_status(status);
    ppu
}

#[test]
fn lax_reads_its_operand_once() {
    let mut ppu = ppu_with_status(0x80);
    let mut cpu = Cpu::new();
    let outcome = cpu.exec(
        &mut ppu,
        Instruction { operation: Operation::Lax, mode: AddressingMode::ZeroPage(2) },
    );
    assert_eq!(outcome, Ok(()));
    assert_eq!(cpu.registers().a, 0x80);
    assert_eq!(cpu.registers().x, 0x80);
    assert!(cpu.registers().p.contains(NEGATIVE));
    assert!(!cpu.registers().p.contains(ZERO));
    // One read: bit 7 of the status is cleared, and the byte read is what
    // was last on the bus.
    assert_eq!(ppu.status(), 0x00);
    assert_eq!(ppu.last_bus(), 0x80);
}

#[test]
fn lax_from_the_status_register_in_a_program() {
    // LAX $2002.
    let mut memory = memory(&[0xAF, 0x02, 0x20]);
    memory.ppu.set_status(0xE0);
    let mut cpu = Cpu::new();
    cpu.reset(&mut memory);
    assert_eq!(cpu.step(&mut memory), Ok(4));
    assert_eq!(cpu.registers().a, 0xE0);
    assert_eq!(cpu.registers().x, 0xE0);
    assert_eq!(memory.ppu.status(), 0x60);
}

#[test]
fn undocumented_instructions_work_on_the_value_written() {
    // SLO on the status register: 0xC0 is read, 0x80 is written (and
    // dropped by the register), and the accumulator is ORed with 0x80. A
    // second read would have found 0x40.
    let mut ppu = ppu_with_status(0xC0);
    let mut cpu = Cpu::new();
    let slo = Instruction { operation: Operation::Slo, mode: AddressingMode::ZeroPage(2) };
    assert_eq!(cpu.exec(&mut ppu, slo), Ok(()));
    assert_eq!(cpu.registers().a, 0x80);
    assert!(cpu.registers().p.contains(CARRY));
    assert_eq!(ppu.status(), 0x40);
    assert_eq!(ppu.last_bus(), 0x80);

    // SRE: 0xC0 is read, 0x60 written, and the accumulator becomes 0x60.
    let mut ppu = ppu_with_status(0xC0);
    let mut cpu = Cpu::new();
    let sre = Instruction { operation: Operation::Sre, mode: AddressingMode::ZeroPage(2) };
    assert_eq!(cpu.exec(&mut ppu, sre), Ok(()));
    assert_eq!(cpu.registers().a, 0x60);
    assert_eq!(ppu.last_bus(), 0x60);

    // RLA with the carry clear: 0xC0 is read, 0x80 written; the accumulator
    // 0xFF becomes 0x80.
    let mut ppu = ppu_with_status(0xC0);
    let mut cpu = Cpu::new();
    cpu.lda(AddressingMode::Immediate(0xFF), &mut ppu);
    let rla = Instruction { operation: Operation::Rla, mode: AddressingMode::ZeroPage(2) };
    assert_eq!(cpu.exec(&mut ppu, rla), Ok(()));
    assert_eq!(cpu.registers().a, 0x80);

    // RRA with the carry clear: 0xC1 is read, 0x60 written with the carry
    // set, and 0x60 plus the carry is added to the accumulator.
    let mut ppu = ppu_with_status(0xC0);
    ppu.store(nes::mem::Address(0x2000), 0x01);
    let mut cpu = Cpu::new();
    let rra = Instruction { operation: Operation::Rra, mode: AddressingMode::ZeroPage(2) };
    assert_eq!(cpu.exec(&mut ppu, rra), Ok(()));
    assert_eq!(cpu.registers().a, 0x61);

    // DCP: 0xC0 is read, 0xBF written, and the accumulator 0xBF compares
    // equal to it.
    let mut ppu = ppu_with_status(0xC0);
    let mut cpu = Cpu::new();
    cpu.lda(AddressingMode::Immediate(0xBF), &mut ppu);
    let dcp = Instruction { operation: Operation::Dcp, mode: AddressingMode::ZeroPage(2) };
    assert_eq!(cpu.exec(&mut ppu, dcp), Ok(()));
    assert!(cpu.registers().p.contains(ZERO));
    assert!(cpu.registers().p.contains(CARRY));

    // ISB with the carry set: 0xC0 is read, 0xC1 written, and 0xC1 is
    // subtracted from the accumulator 0xC1.
    let mut ppu = ppu_with_status(0xC0);
    let mut cpu = Cpu::new();
    cpu.lda(AddressingMode::Immediate(0xC1), &mut ppu);
    cpu.sec();
    let isb = Instruction { operation: Operation::Isb, mode: AddressingMode::ZeroPage(2) };
    assert_eq!(cpu.exec(&mut ppu, isb), Ok(()));
    assert_eq!(cpu.registers().a, 0x00);
    assert!(cpu.registers().p.contains(ZERO));
}
