use nes::cpu::instruction::{cycle_cost, decode_opcode, ModeKind, CYCLE_TABLE};
use nes::cpu::registers::{
    BREAK, CARRY, DECIMAL, INTERRUPT_DISABLE, NEGATIVE, OVERFLOW, UNUSED, ZERO,
};
use nes::cpu::{AddressingMode, Cpu, Fatal, Instruction, Operation, Registers};
use nes::mem::bus::FlatMemory;
use nes::mem::{Address, Bus};

/// A CPU after its reset, in plain memory that holds `program` at `start`.
fn machine(start: u16, program: &[u8]) -> (Cpu, Box<FlatMemory>) {
    let mut memory: Box<FlatMemory> = Box::new([0u8; 0x10000]);
    for (i, byte) in program.iter().enumerate() {
        memory[start as usize + i] = *byte;
    }
    let mut cpu = Cpu::new();
    cpu.set_reset_vector(&mut *memory, Address(start));
    cpu.reset(&mut *memory);
    (cpu, memory)
}

fn flag(cpu: &Cpu, mask: u8) -> bool {
    cpu.registers().p.contains(mask)
}

#[test]
fn power_on_state() {
    let cpu = Cpu::new();
    let registers: &Registers = cpu.registers();
    assert_eq!(registers.a, 0);
    assert_eq!(registers.x, 0);
    assert_eq!(registers.y, 0);
    assert_eq!(registers.s, 0xFD);
    assert_eq!(registers.pc, Address(0));
    assert_eq!(registers.p.bits(), INTERRUPT_DISABLE | UNUSED);
    assert!(!cpu.irq_pending());
    assert_eq!(cpu.cycles_remaining(), 0);
    assert_eq!(cpu.cycle(), 0);
}

#[test]
fn reset_loads_the_reset_vector() {
    let (cpu, _memory) = machine(0x1234, &[]);
    assert_eq!(cpu.registers().pc, Address(0x1234));
    assert!(flag(&cpu, INTERRUPT_DISABLE));
    assert_eq!(cpu.cycle(), 7);
    assert_eq!(cpu.cycles_remaining(), 0);
}

#[test]
fn lda_immediate() {
    let (mut cpu, mut memory) = machine(0x0600, &[0xA9, 0x05]);
    let cycles = cpu.step(&mut *memory);
    assert_eq!(cycles, Ok(2));
    assert_eq!(cpu.registers().a, 0x05);
    assert!(!flag(&cpu, ZERO));
    assert!(!flag(&cpu, NEGATIVE));
    assert_eq!(cpu.registers().pc, Address(0x0602));
}

#[test]
fn adc_overflow() {
    let (mut cpu, mut memory) = machine(0x0600, &[0xA9, 0x50, 0x69, 0x50]);
    assert_eq!(cpu.step(&mut *memory), Ok(2));
    assert!(!flag(&cpu, CARRY));
    assert_eq!(cpu.step(&mut *memory), Ok(2));
    assert_eq!(cpu.registers().a, 0xA0);
    assert!(!flag(&cpu, CARRY));
    assert!(flag(&cpu, OVERFLOW));
    assert!(flag(&cpu, NEGATIVE));
    assert!(!flag(&cpu, ZERO));
}

#[test]
fn jmp_indirect_wraps_within_the_page() {
    let (mut cpu, mut memory) = machine(0x0600, &[0x6C, 0xFF, 0x30]);
    memory[0x30FF] = 0x40;
    memory[0x3000] = 0x80;
    memory[0x3100] = 0x50;
    assert_eq!(cpu.step(&mut *memory), Ok(5));
    assert_eq!(cpu.registers().pc, Address(0x8040));
}

#[test]
fn jmp_indirect_within_a_page() {
    let (mut cpu, mut memory) = machine(0x0600, &[0x6C, 0x10, 0x30]);
    memory[0x3010] = 0x40;
    memory[0x3011] = 0x50;
    assert_eq!(cpu.step(&mut *memory), Ok(5));
    assert_eq!(cpu.registers().pc, Address(0x5040));
}

#[test]
fn jsr_rts_round_trip() {
    let mut program = vec![0x20, 0x09, 0x06];
    program.resize(9, 0xEA);
    program.push(0x60);
    let (mut cpu, mut memory) = machine(0x0600, &program);
    let s = cpu.registers().s;
    assert_eq!(cpu.step(&mut *memory), Ok(6));
    assert_eq!(cpu.registers().pc, Address(0x0609));
    assert_eq!(memory[0x0100 + s as usize], 0x06);
    assert_eq!(memory[0x0100 + s as usize - 1], 0x02);
    assert_eq!(cpu.registers().s, s.wrapping_sub(2));
    assert_eq!(cpu.step(&mut *memory), Ok(6));
    assert_eq!(cpu.registers().pc, Address(0x0603));
    assert_eq!(cpu.registers().s, s);
}

#[test]
fn php_plp_keeps_the_flags() {
    // SEC, SED, SEI, LDA #$00, BIT $10 with 0xC0 at $10 sets every flag that
    // an instruction can set; then PHP, PLP.
    let program = [0x38, 0xF8, 0x78, 0xA9, 0x00, 0x24, 0x10, 0x08, 0x28];
    let (mut cpu, mut memory) = machine(0x0600, &program);
    memory[0x0010] = 0xC0;
    for _ in 0..5 {
        cpu.step(&mut *memory).unwrap();
    }
    assert_eq!(cpu.registers().p.bits(), 0b1110_1111);
    let s = cpu.registers().s;
    assert_eq!(cpu.step(&mut *memory), Ok(3));
    assert_eq!(memory[0x0100 + s as usize], 0b1111_1111);
    assert_eq!(cpu.step(&mut *memory), Ok(4));
    assert_eq!(cpu.registers().p.bits(), 0b1110_1111);
    assert!(flag(&cpu, UNUSED));
    assert!(!flag(&cpu, BREAK));
    assert_eq!(cpu.registers().s, s);
}

#[test]
fn plp_forces_unused_on_and_break_off() {
    // LDA #$DF, PHA, PLP; then LDA #$10, PHA, PLP.
    let program = [0xA9, 0xDF, 0x48, 0x28, 0xA9, 0x10, 0x48, 0x28];
    let (mut cpu, mut memory) = machine(0x0600, &program);
    for _ in 0..3 {
        cpu.step(&mut *memory).unwrap();
    }
    assert_eq!(cpu.registers().p.bits(), 0b1110_1111);
    for _ in 0..3 {
        cpu.step(&mut *memory).unwrap();
    }
    assert_eq!(cpu.registers().p.bits(), 0b0010_0000);
}

#[test]
fn cpu_functional_test() {
    // The program starts at 0x0400, checks itself as it goes, traps in a
    // branch to itself where a check fails, and jumps to its end at 0x3699
    // where all of them pass.
    let program: [u8; 33] = [
        0xD8, // 0400 CLD
        0xA2, 0xFF, // 0401 LDX #$FF
        0x9A, // 0403 TXS
        0xA9, 0x00, // 0404 LDA #$00
        0x18, // 0406 CLC
        0x69, 0x05, // 0407 ADC #$05
        0xC9, 0x05, // 0409 CMP #$05
        0xD0, 0xFE, // 040B BNE *
        0x85, 0x10, // 040D STA $10
        0xE6, 0x10, // 040F INC $10
        0xA5, 0x10, // 0411 LDA $10
        0xC9, 0x06, // 0413 CMP #$06
        0xD0, 0xFE, // 0415 BNE *
        0x20, 0x30, 0x04, // 0417 JSR $0430
        0xC9, 0x0C, // 041A CMP #$0C
        0xD0, 0xFE, // 041C BNE *
        0x4C, 0x99, 0x36, // 041E JMP $3699
    ];
    let mut binary = vec![0u8; 0x10000];
    binary[0x0400..0x0400 + program.len()].copy_from_slice(&program);
    binary[0x0430] = 0x0A; // ASL A
    binary[0x0431] = 0x60; // RTS
    binary[0x3699] = 0x4C; // JMP $3699
    binary[0x369A] = 0x99;
    binary[0x369B] = 0x36;
    let mut cpu = Cpu::new();
    let outcome = cpu.run(&binary[..], Some(Address(0x400)), Some(Address(0x3699)), 1000);
    assert_eq!(outcome, Ok(true));
    assert_eq!(cpu.registers().pc, Address(0x3699));
    assert_eq!(cpu.registers().a, 0x0C);
    assert_eq!(cpu.registers().s, 0xFF);
}

#[test]
fn run_detects_the_trap_of_a_failed_check() {
    // LDA #$01, CMP #$02, BNE *.
    let binary = [0xA9, 0x01, 0xC9, 0x02, 0xD0, 0xFE];
    let mut cpu = Cpu::new();
    let outcome = cpu.run(&binary[..], Some(Address(0)), Some(Address(0x3699)), 1000);
    assert_eq!(outcome, Err(Fatal::InfiniteLoop { pc: Address(0x0004) }));
}

#[test]
fn run_stops_when_the_steps_are_used_up() {
    // An endless row of NOPs, wrapped around by a JMP $0000 at 0x00FD.
    let mut binary = vec![0xEA; 0x100];
    binary[0xFD] = 0x4C;
    binary[0xFE] = 0x00;
    binary[0xFF] = 0x00;
    let mut cpu = Cpu::new();
    let outcome = cpu.run(&binary[..], Some(Address(0)), None, 10);
    assert_eq!(outcome, Ok(false));
    assert_eq!(cpu.registers().pc, Address(10));
}

#[test]
fn run_uses_the_reset_vector_of_the_program() {
    let mut binary = vec![0u8; 0x10000];
    binary[0xFFFC] = 0x00;
    binary[0xFFFD] = 0x80;
    binary[0x8000] = 0xE8; // INX
    let mut cpu = Cpu::new();
    let outcome = cpu.run(&binary[..], None, Some(Address(0x8001)), 5);
    assert_eq!(outcome, Ok(true));
    assert_eq!(cpu.registers().x, 1);
}

#[test]
fn run_ends_at_once_at_the_end_address() {
    let binary = [0xE8];
    let mut cpu = Cpu::new();
    let outcome = cpu.run(&binary[..], Some(Address(0)), Some(Address(0)), 0);
    assert_eq!(outcome, Ok(true));
    assert_eq!(cpu.registers().x, 0);
}

#[test]
fn unstable_opcodes_are_fatal() {
    for opcode in [
        0x0Bu8, 0x2B, 0x4B, 0x6B, 0x8B, 0x93, 0x9B, 0x9C, 0x9E, 0x9F, 0xAB, 0xBB, 0xCB,
    ] {
        let (mut cpu, mut memory) = machine(0x0600, &[opcode]);
        assert_eq!(
            cpu.step(&mut *memory),
            Err(Fatal::IllegalOpcode { pc: Address(0x0600), opcode })
        );
        assert_eq!(decode_opcode(opcode), None);
    }
}

#[test]
fn every_other_opcode_decodes() {
    let unstable = [
        0x0Bu8, 0x2B, 0x4B, 0x6B, 0x8B, 0x93, 0x9B, 0x9C, 0x9E, 0x9F, 0xAB, 0xBB, 0xCB,
    ];
    let mut decoded = 0;
    for opcode in 0..=255u8 {
        if !unstable.contains(&opcode) {
            assert!(decode_opcode(opcode).is_some());
            decoded += 1;
        }
    }
    assert_eq!(decoded, 243);
    assert_eq!(decode_opcode(0x69), Some((Operation::Adc, ModeKind::Immediate)));
    assert_eq!(decode_opcode(0x6C), Some((Operation::Jmp, ModeKind::Indirect)));
    assert_eq!(decode_opcode(0xEA), Some((Operation::Nop, ModeKind::Implicit)));
    assert_eq!(decode_opcode(0xEB), Some((Operation::Sbc, ModeKind::Immediate)));
    assert_eq!(decode_opcode(0xA7), Some((Operation::Lax, ModeKind::ZeroPage)));
}

#[test]
fn stp_is_fatal() {
    let (mut cpu, mut memory) = machine(0x0600, &[0x02]);
    assert_eq!(cpu.step(&mut *memory), Err(Fatal::Halted));
}

#[test]
fn a_jump_to_itself_is_fatal() {
    let (mut cpu, mut memory) = machine(0x0600, &[0x4C, 0x00, 0x06]);
    assert_eq!(cpu.step(&mut *memory), Err(Fatal::InfiniteLoop { pc: Address(0x0600) }));
}

#[test]
fn fetch_reads_the_operand_bytes() {
    let mut memory: Box<FlatMemory> = Box::new([0u8; 0x10000]);
    memory[0x0600] = 0xBD; // LDA $1234,X
    memory[0x0601] = 0x34;
    memory[0x0602] = 0x12;
    memory[0x0603] = 0xF0; // BEQ -2
    memory[0x0604] = 0xFE;
    let mut pc = Address(0x0600);
    let fetched = Instruction::fetch(&mut *memory, &mut pc);
    assert_eq!(
        fetched,
        Ok((
            Instruction {
                operation: Operation::Lda,
                mode: AddressingMode::AbsoluteX(Address(0x1234)),
            },
            0xBD
        ))
    );
    assert_eq!(pc, Address(0x0603));
    let fetched = Instruction::fetch(&mut *memory, &mut pc);
    assert_eq!(
        fetched,
        Ok((Instruction { operation: Operation::Beq, mode: AddressingMode::Relative(-2) }, 0xF0))
    );
    assert_eq!(pc, Address(0x0605));
}

#[test]
fn adc_carry_and_sum() {
    for (a, m, c) in [(0u8, 0u8, 0u8), (0xFF, 0x01, 0), (0xFF, 0xFF, 1), (0x7F, 0x01, 0), (0x80, 0x80, 1)]
    {
        // SEC or CLC, LDA #a, ADC #m.
        let carry = if c == 1 { 0x38 } else { 0x18 };
        let (mut cpu, mut memory) = machine(0x0600, &[carry, 0xA9, a, 0x69, m]);
        for _ in 0..3 {
            cpu.step(&mut *memory).unwrap();
        }
        let carry_out = if flag(&cpu, CARRY) { 1 } else { 0 };
        assert_eq!(
            256 * carry_out + cpu.registers().a as u32,
            a as u32 + m as u32 + c as u32
        );
    }
}

#[test]
fn adc_exact_flags() {
    // SEC, LDA #$FF, ADC #$00: 0xFF + 0 + 1 = 0x100.
    let (mut cpu, mut memory) = machine(0x0600, &[0x38, 0xA9, 0xFF, 0x69, 0x00]);
    for _ in 0..3 {
        cpu.step(&mut *memory).unwrap();
    }
    assert_eq!(cpu.registers().a, 0x00);
    assert_eq!(cpu.registers().p.bits(), UNUSED | INTERRUPT_DISABLE | ZERO | CARRY);
}

#[test]
fn adc_ignores_the_decimal_flag() {
    // SED, CLC, LDA #$09, ADC #$01.
    let (mut cpu, mut memory) = machine(0x0600, &[0xF8, 0x18, 0xA9, 0x09, 0x69, 0x01]);
    for _ in 0..4 {
        cpu.step(&mut *memory).unwrap();
    }
    assert_eq!(cpu.registers().a, 0x0A);
    assert!(flag(&cpu, DECIMAL));
}

#[test]
fn sbc_difference_and_borrow() {
    for (a, m, c) in [(0x50u8, 0x30u8, 1u8), (0x50, 0x60, 1), (0x00, 0x00, 0), (0x80, 0x01, 1), (0x10, 0x10, 0)]
    {
        let carry = if c == 1 { 0x38 } else { 0x18 };
        let (mut cpu, mut memory) = machine(0x0600, &[carry, 0xA9, a, 0xE9, m]);
        for _ in 0..3 {
            cpu.step(&mut *memory).unwrap();
        }
        let expected = (a as i32 - m as i32 - (1 - c as i32)).rem_euclid(256);
        assert_eq!(cpu.registers().a as i32, expected);
        assert_eq!(flag(&cpu, CARRY), a as i32 >= m as i32 + (1 - c as i32));
    }
}

#[test]
fn sbc_overflow() {
    // SEC, LDA #$80, SBC #$01: -128 - 1 overflows.
    let (mut cpu, mut memory) = machine(0x0600, &[0x38, 0xA9, 0x80, 0xE9, 0x01]);
    for _ in 0..3 {
        cpu.step(&mut *memory).unwrap();
    }
    assert_eq!(cpu.registers().a, 0x7F);
    assert!(flag(&cpu, OVERFLOW));
    assert!(flag(&cpu, CARRY));
    assert!(!flag(&cpu, NEGATIVE));
}

#[test]
fn undocumented_sbc_is_sbc() {
    let (mut cpu, mut memory) = machine(0x0600, &[0x38, 0xA9, 0x50, 0xEB, 0x30]);
    for _ in 0..3 {
        cpu.step(&mut *memory).unwrap();
    }
    assert_eq!(cpu.registers().a, 0x20);
    assert!(flag(&cpu, CARRY));
}

#[test]
fn compare_sets_carry_zero_negative() {
    // LDA #$10, CMP #$10; CMP #$20; CMP #$0F.
    let (mut cpu, mut memory) = machine(0x0600, &[0xA9, 0x10, 0xC9, 0x10, 0xC9, 0x20, 0xC9, 0x0F]);
    cpu.step(&mut *memory).unwrap();
    cpu.step(&mut *memory).unwrap();
    assert!(flag(&cpu, CARRY) && flag(&cpu, ZERO) && !flag(&cpu, NEGATIVE));
    cpu.step(&mut *memory).unwrap();
    assert!(!flag(&cpu, CARRY) && !flag(&cpu, ZERO) && flag(&cpu, NEGATIVE));
    cpu.step(&mut *memory).unwrap();
    assert!(flag(&cpu, CARRY) && !flag(&cpu, ZERO) && !flag(&cpu, NEGATIVE));
    assert_eq!(cpu.registers().a, 0x10);
}

#[test]
fn shifts_and_rotations() {
    // LDA #$81, ASL A, ROL A, LSR A, ROR A.
    let (mut cpu, mut memory) = machine(0x0600, &[0xA9, 0x81, 0x0A, 0x2A, 0x4A, 0x6A]);
    cpu.step(&mut *memory).unwrap();
    cpu.step(&mut *memory).unwrap();
    assert_eq!(cpu.registers().a, 0x02);
    assert!(flag(&cpu, CARRY));
    cpu.step(&mut *memory).unwrap();
    assert_eq!(cpu.registers().a, 0x05);
    assert!(!flag(&cpu, CARRY));
    cpu.step(&mut *memory).unwrap();
    assert_eq!(cpu.registers().a, 0x02);
    assert!(flag(&cpu, CARRY));
    cpu.step(&mut *memory).unwrap();
    assert_eq!(cpu.registers().a, 0x81);
    assert!(!flag(&cpu, CARRY));
    assert!(flag(&cpu, NEGATIVE));
}

#[test]
fn shift_in_memory() {
    // ASL $10 with 0xC0 there.
    let (mut cpu, mut memory) = machine(0x0600, &[0x06, 0x10]);
    memory[0x10] = 0xC0;
    assert_eq!(cpu.step(&mut *memory), Ok(5));
    assert_eq!(memory[0x10], 0x80);
    assert!(flag(&cpu, CARRY));
    assert!(flag(&cpu, NEGATIVE));
    assert_eq!(cpu.registers().a, 0);
}

#[test]
fn bit_test() {
    // LDA #$01, BIT $10 with 0xC0 there: no bit in common.
    let (mut cpu, mut memory) = machine(0x0600, &[0xA9, 0x01, 0x24, 0x10]);
    memory[0x10] = 0xC0;
    cpu.step(&mut *memory).unwrap();
    cpu.step(&mut *memory).unwrap();
    assert!(flag(&cpu, ZERO));
    assert!(flag(&cpu, OVERFLOW));
    assert!(flag(&cpu, NEGATIVE));
    assert_eq!(cpu.registers().a, 0x01);
}

#[test]
fn logic_operations() {
    // LDA #$F0, AND #$3C, ORA #$03, EOR #$FF.
    let (mut cpu, mut memory) = machine(0x0600, &[0xA9, 0xF0, 0x29, 0x3C, 0x09, 0x03, 0x49, 0xFF]);
    cpu.step(&mut *memory).unwrap();
    cpu.step(&mut *memory).unwrap();
    assert_eq!(cpu.registers().a, 0x30);
    cpu.step(&mut *memory).unwrap();
    assert_eq!(cpu.registers().a, 0x33);
    cpu.step(&mut *memory).unwrap();
    assert_eq!(cpu.registers().a, 0xCC);
    assert!(flag(&cpu, NEGATIVE));
}

#[test]
fn increments_and_decrements_wrap() {
    // LDX #$FF, INX, DEX, LDY #$00, DEY, INY, DEC $10, INC $10.
    let program = [0xA2, 0xFF, 0xE8, 0xCA, 0xA0, 0x00, 0x88, 0xC8, 0xC6, 0x10, 0xE6, 0x10];
    let (mut cpu, mut memory) = machine(0x0600, &program);
    cpu.step(&mut *memory).unwrap();
    cpu.step(&mut *memory).unwrap();
    assert_eq!(cpu.registers().x, 0x00);
    assert!(flag(&cpu, ZERO));
    cpu.step(&mut *memory).unwrap();
    assert_eq!(cpu.registers().x, 0xFF);
    assert!(flag(&cpu, NEGATIVE));
    cpu.step(&mut *memory).unwrap();
    cpu.step(&mut *memory).unwrap();
    assert_eq!(cpu.registers().y, 0xFF);
    cpu.step(&mut *memory).unwrap();
    assert_eq!(cpu.registers().y, 0x00);
    cpu.step(&mut *memory).unwrap();
    assert_eq!(memory[0x10], 0xFF);
    cpu.step(&mut *memory).unwrap();
    assert_eq!(memory[0x10], 0x00);
    assert!(flag(&cpu, ZERO));
}

#[test]
fn transfers() {
    // LDA #$80, TAX, TAY, LDX #$40, TXS, TSX, LDA #$00, TXA, TYA.
    let program = [0xA9, 0x80, 0xAA, 0xA8, 0xA2, 0x40, 0x9A, 0xBA, 0xA9, 0x00, 0x8A, 0x98];
    let (mut cpu, mut memory) = machine(0x0600, &program);
    for _ in 0..3 {
        cpu.step(&mut *memory).unwrap();
    }
    assert_eq!(cpu.registers().x, 0x80);
    assert_eq!(cpu.registers().y, 0x80);
    assert!(flag(&cpu, NEGATIVE));
    cpu.step(&mut *memory).unwrap();
    let before = cpu.registers().p.bits();
    cpu.step(&mut *memory).unwrap();
    assert_eq!(cpu.registers().s, 0x40);
    assert_eq!(cpu.registers().p.bits(), before);
    cpu.step(&mut *memory).unwrap();
    assert_eq!(cpu.registers().x, 0x40);
    cpu.step(&mut *memory).unwrap();
    cpu.step(&mut *memory).unwrap();
    assert_eq!(cpu.registers().a, 0x40);
    cpu.step(&mut *memory).unwrap();
    assert_eq!(cpu.registers().a, 0x80);
}

#[test]
fn flag_instructions() {
    // SEC, SED, CLI, CLC, CLD, SEI; then an overflow and CLV.
    let program = [0x38, 0xF8, 0x58, 0x18, 0xD8, 0x78, 0xA9, 0x7F, 0x69, 0x01, 0xB8];
    let (mut cpu, mut memory) = machine(0x0600, &program);
    cpu.step(&mut *memory).unwrap();
    assert!(flag(&cpu, CARRY));
    cpu.step(&mut *memory).unwrap();
    assert!(flag(&cpu, DECIMAL));
    cpu.step(&mut *memory).unwrap();
    assert!(!flag(&cpu, INTERRUPT_DISABLE));
    cpu.step(&mut *memory).unwrap();
    assert!(!flag(&cpu, CARRY));
    cpu.step(&mut *memory).unwrap();
    assert!(!flag(&cpu, DECIMAL));
    cpu.step(&mut *memory).unwrap();
    assert!(flag(&cpu, INTERRUPT_DISABLE));
    cpu.step(&mut *memory).unwrap();
    cpu.step(&mut *memory).unwrap();
    assert!(flag(&cpu, OVERFLOW));
    cpu.step(&mut *memory).unwrap();
    assert!(!flag(&cpu, OVERFLOW));
}

#[test]
fn branches() {
    // LDA #$00 sets ZERO; BNE is not taken, BEQ +2 is.
    let program = [0xA9, 0x00, 0xD0, 0x10, 0xF0, 0x02, 0xEA, 0xEA, 0x10, 0xFA];
    let (mut cpu, mut memory) = machine(0x0600, &program);
    cpu.step(&mut *memory).unwrap();
    cpu.step(&mut *memory).unwrap();
    assert_eq!(cpu.registers().pc, Address(0x0604));
    cpu.step(&mut *memory).unwrap();
    assert_eq!(cpu.registers().pc, Address(0x0608));
    // BPL -6 goes back to 0x0604.
    cpu.step(&mut *memory).unwrap();
    assert_eq!(cpu.registers().pc, Address(0x0604));
}

#[test]
fn addressing_modes_find_their_operands() {
    let mut memory: Box<FlatMemory> = Box::new([0u8; 0x10000]);
    let mut registers = Registers::new();
    registers.a = 0x11;
    registers.x = 0x04;
    registers.y = 0x10;
    registers.pc = Address(0x0602);
    memory[0x0020] = 0x21;
    memory[0x0003] = 0x22; // 0xFF + 4 wraps within the zero page
    memory[0x000F] = 0x23;
    memory[0x1234] = 0x24;
    memory[0x1238] = 0x25;
    memory[0x0003 + 0x10 - 0x10] = 0x22;
    memory[0x0024] = 0x78; // pointer at 0x20 + X
    memory[0x0025] = 0x56;
    memory[0x5678] = 0x26;
    memory[0x0030] = 0xF8; // pointer at 0x30
    memory[0x0031] = 0x9A;
    memory[0x9B08] = 0x27; // 0x9AF8 + Y
    memory[0x00FF] = 0x00; // pointer at 0xFF wraps to 0x00
    memory[0x0000] = 0x40;
    memory[0x4010] = 0x28;

    assert_eq!(AddressingMode::Accumulator.load(&mut *memory, &registers), 0x11);
    assert_eq!(AddressingMode::Immediate(0x99).load(&mut *memory, &registers), 0x99);
    assert_eq!(AddressingMode::ZeroPage(0x20).load(&mut *memory, &registers), 0x21);
    assert_eq!(AddressingMode::ZeroPageX(0xFF).load(&mut *memory, &registers), 0x22);
    assert_eq!(AddressingMode::ZeroPageY(0xFF).load(&mut *memory, &registers), 0x23);
    assert_eq!(AddressingMode::Absolute(Address(0x1234)).load(&mut *memory, &registers), 0x24);
    assert_eq!(AddressingMode::AbsoluteX(Address(0x1234)).load(&mut *memory, &registers), 0x25);
    assert_eq!(
        AddressingMode::AbsoluteY(Address(0xFFF8)).effective_address(&mut *memory, &registers),
        Address(0x0008)
    );
    assert_eq!(AddressingMode::IndexedIndirect(0x20).load(&mut *memory, &registers), 0x26);
    assert_eq!(AddressingMode::IndirectIndexed(0x30).load(&mut *memory, &registers), 0x27);
    assert_eq!(
        AddressingMode::IndirectIndexed(0xFF).effective_address(&mut *memory, &registers),
        Address(0x4010)
    );
    assert_eq!(
        AddressingMode::Relative(-2).effective_address(&mut *memory, &registers),
        Address(0x0600)
    );
    assert_eq!(
        AddressingMode::Relative(127).effective_address(&mut *memory, &registers),
        Address(0x0681)
    );
    assert_eq!(
        AddressingMode::Relative(-128).effective_address(&mut *memory, &registers),
        Address(0x0582)
    );
}

#[test]
fn store_then_load_through_every_mode() {
    let modes = [
        AddressingMode::Accumulator,
        AddressingMode::ZeroPage(0x20),
        AddressingMode::ZeroPageX(0xFF),
        AddressingMode::ZeroPageY(0x80),
        AddressingMode::Absolute(Address(0x1234)),
        AddressingMode::AbsoluteX(Address(0xFFFF)),
        AddressingMode::AbsoluteY(Address(0x2000)),
        AddressingMode::Indirect(Address(0x30FF)),
        AddressingMode::IndexedIndirect(0x40),
        AddressingMode::IndirectIndexed(0x50),
        AddressingMode::Relative(5),
    ];
    for mode in modes {
        let mut memory: Box<FlatMemory> = Box::new([0u8; 0x10000]);
        memory[0x30FF] = 0x00;
        memory[0x3000] = 0x70;
        memory[0x0043] = 0x00;
        memory[0x0044] = 0x71;
        memory[0x0050] = 0x00;
        memory[0x0051] = 0x72;
        let mut registers = Registers::new();
        registers.x = 3;
        registers.y = 7;
        registers.pc = Address(0x0600);
        mode.store(&mut *memory, &mut registers, 0xA5);
        assert_eq!(mode.load(&mut *memory, &registers), 0xA5);
    }
}

#[test]
fn a_store_over_its_own_pointer_moves_the_target() {
    let mut memory: Box<FlatMemory> = Box::new([0u8; 0x10000]);
    memory[0x0010] = 0x10;
    memory[0x0011] = 0x00;
    let mut registers = Registers::new();
    registers.y = 0;
    let mode = AddressingMode::IndirectIndexed(0x10);
    mode.store(&mut *memory, &mut registers, 0x20);
    assert_eq!(memory[0x0010], 0x20);
    assert_eq!(mode.load(&mut *memory, &registers), 0x00);
}

#[test]
fn stack_is_last_in_first_out() {
    // LDA #$11, PHA, LDA #$22, PHA, PLA, TAX, PLA.
    let program = [0xA9, 0x11, 0x48, 0xA9, 0x22, 0x48, 0x68, 0xAA, 0x68];
    let (mut cpu, mut memory) = machine(0x0600, &program);
    let s = cpu.registers().s;
    for _ in 0..4 {
        cpu.step(&mut *memory).unwrap();
    }
    assert_eq!(memory[0x01FD], 0x11);
    assert_eq!(memory[0x01FC], 0x22);
    assert_eq!(cpu.registers().s, s.wrapping_sub(2));
    cpu.step(&mut *memory).unwrap();
    assert_eq!(cpu.registers().a, 0x22);
    cpu.step(&mut *memory).unwrap();
    cpu.step(&mut *memory).unwrap();
    assert_eq!(cpu.registers().a, 0x11);
    assert_eq!(cpu.registers().x, 0x22);
    assert_eq!(cpu.registers().s, s);
}

#[test]
fn stack_pointer_wraps() {
    // LDX #$00, TXS, LDA #$AB, PHA, PLA.
    let program = [0xA2, 0x00, 0x9A, 0xA9, 0xAB, 0x48, 0xA9, 0x00, 0x68];
    let (mut cpu, mut memory) = machine(0x0600, &program);
    for _ in 0..4 {
        cpu.step(&mut *memory).unwrap();
    }
    assert_eq!(memory[0x0100], 0xAB);
    assert_eq!(cpu.registers().s, 0xFF);
    cpu.step(&mut *memory).unwrap();
    cpu.step(&mut *memory).unwrap();
    assert_eq!(cpu.registers().a, 0xAB);
    assert_eq!(cpu.registers().s, 0x00);
}

#[test]
fn every_step_costs_what_the_table_says() {
    for opcode in 0..=255u8 {
        let (mut cpu, mut memory) = machine(0x0600, &[opcode, 0x10, 0x20]);
        memory[0xFFFE] = 0x00;
        memory[0xFFFF] = 0x90;
        memory[0x01FE] = 0x00;
        memory[0x01FF] = 0x07;
        memory[0x0100] = 0x07;
        match cpu.tick(&mut *memory) {
            Ok(()) => {
                assert_eq!(cpu.cycles_remaining() + 1, CYCLE_TABLE[opcode as usize]);
                assert_eq!(cycle_cost(opcode), CYCLE_TABLE[opcode as usize]);
            }
            Err(_) => {}
        }
    }
}

#[test]
fn tick_waits_out_the_cycles_of_an_instruction() {
    // LDA $1234 takes four cycles; LDX #$01 follows.
    let (mut cpu, mut memory) = machine(0x0600, &[0xAD, 0x34, 0x12, 0xA2, 0x01]);
    memory[0x1234] = 0x77;
    assert_eq!(cpu.tick(&mut *memory), Ok(()));
    assert_eq!(cpu.registers().a, 0x77);
    assert_eq!(cpu.cycles_remaining(), 3);
    assert_eq!(cpu.cycle(), 8);
    for left in [2u8, 1, 0] {
        assert_eq!(cpu.tick(&mut *memory), Ok(()));
        assert_eq!(cpu.cycles_remaining(), left);
        assert_eq!(cpu.registers().x, 0);
    }
    assert_eq!(cpu.cycle(), 11);
    assert_eq!(cpu.tick(&mut *memory), Ok(()));
    assert_eq!(cpu.registers().x, 1);
    assert_eq!(cpu.cycles_remaining(), 1);
    assert_eq!(cpu.cycle(), 12);
}

#[test]
fn tick_counts_a_fatal_cycle() {
    let (mut cpu, mut memory) = machine(0x0600, &[0x02]);
    assert_eq!(cpu.tick(&mut *memory), Err(Fatal::Halted));
    assert_eq!(cpu.cycle(), 8);
    assert_eq!(cpu.cycles_remaining(), 0);
}

#[test]
fn brk_and_rti() {
    // CLI, BRK at 0x0601; the handler at 0x9000 is RTI.
    let (mut cpu, mut memory) = machine(0x0600, &[0x58, 0x00, 0xEA, 0xEA]);
    memory[0xFFFE] = 0x00;
    memory[0xFFFF] = 0x90;
    memory[0x9000] = 0x40;
    cpu.step(&mut *memory).unwrap();
    let s = cpu.registers().s;
    let p = cpu.registers().p.bits();
    let cycle = cpu.cycle();
    assert_eq!(cpu.step(&mut *memory), Ok(7));
    assert_eq!(cpu.registers().pc, Address(0x9000));
    assert!(flag(&cpu, INTERRUPT_DISABLE));
    assert!(!flag(&cpu, BREAK));
    assert_eq!(cpu.cycle(), cycle + 7);
    // The address pushed is one past the byte after the opcode.
    assert_eq!(memory[0x0100 + s as usize], 0x06);
    assert_eq!(memory[0x0100 + s as usize - 1], 0x03);
    assert_eq!(memory[0x0100 + s as usize - 2], p | BREAK);
    assert_eq!(cpu.step(&mut *memory), Ok(6));
    assert_eq!(cpu.registers().pc, Address(0x0603));
    assert_eq!(cpu.registers().p.bits(), p);
    assert_eq!(cpu.registers().s, s);
}

#[test]
fn irq_waits_while_interrupts_are_disabled() {
    // CLI, then NOPs; the handler at 0x9000 is a NOP.
    let (mut cpu, mut memory) = machine(0x0600, &[0x58, 0xEA, 0xEA]);
    memory[0xFFFE] = 0x00;
    memory[0xFFFF] = 0x90;
    memory[0x9000] = 0xEA;
    cpu.irq(&mut *memory);
    assert!(cpu.irq_pending());
    assert_eq!(cpu.registers().pc, Address(0x0600));
    // CLI runs with the request still waiting.
    cpu.step(&mut *memory).unwrap();
    assert!(cpu.irq_pending());
    assert_eq!(cpu.registers().pc, Address(0x0601));
    // The next step serves it and runs the first instruction of the handler.
    let s = cpu.registers().s;
    cpu.step(&mut *memory).unwrap();
    assert!(!cpu.irq_pending());
    assert_eq!(cpu.registers().pc, Address(0x9001));
    assert!(flag(&cpu, INTERRUPT_DISABLE));
    assert_eq!(memory[0x0100 + s as usize], 0x06);
    assert_eq!(memory[0x0100 + s as usize - 1], 0x02);
    assert_eq!(memory[0x0100 + s as usize - 2] & BREAK, 0);
}

#[test]
fn irq_is_taken_at_once_while_interrupts_are_enabled() {
    let (mut cpu, mut memory) = machine(0x0600, &[0x58]);
    memory[0xFFFE] = 0x34;
    memory[0xFFFF] = 0x12;
    cpu.step(&mut *memory).unwrap();
    let cycle = cpu.cycle();
    cpu.irq(&mut *memory);
    assert!(!cpu.irq_pending());
    assert_eq!(cpu.registers().pc, Address(0x1234));
    assert_eq!(cpu.cycle(), cycle + 7);
}

#[test]
fn nmi_is_always_taken() {
    let (mut cpu, mut memory) = machine(0x0600, &[]);
    memory[0xFFFA] = 0x78;
    memory[0xFFFB] = 0x56;
    assert!(flag(&cpu, INTERRUPT_DISABLE));
    let s = cpu.registers().s;
    cpu.nmi(&mut *memory);
    assert_eq!(cpu.registers().pc, Address(0x5678));
    assert_eq!(cpu.registers().s, s.wrapping_sub(3));
    assert_eq!(memory[0x0100 + s as usize], 0x06);
    assert_eq!(memory[0x0100 + s as usize - 1], 0x01);
}

#[test]
fn status_is_live_after_every_instruction() {
    for opcode in 0..=255u8 {
        let (mut cpu, mut memory) = machine(0x0600, &[opcode, 0xFF, 0x01]);
        for i in 0..0x200 {
            memory[i] = 0xFF;
        }
        let _ = cpu.step(&mut *memory);
        assert!(flag(&cpu, UNUSED));
        assert!(!flag(&cpu, BREAK));
    }
}

#[test]
fn undocumented_instructions() {
    // LAX $10.
    let (mut cpu, mut memory) = machine(0x0600, &[0xA7, 0x10]);
    memory[0x10] = 0x8F;
    cpu.step(&mut *memory).unwrap();
    assert_eq!(cpu.registers().a, 0x8F);
    assert_eq!(cpu.registers().x, 0x8F);
    assert!(flag(&cpu, NEGATIVE));

    // LDA #$F0, LDX #$3C, SAX $10.
    let (mut cpu, mut memory) = machine(0x0600, &[0xA9, 0xF0, 0xA2, 0x3C, 0x87, 0x10]);
    for _ in 0..2 {
        cpu.step(&mut *memory).unwrap();
    }
    let p = cpu.registers().p.bits();
    cpu.step(&mut *memory).unwrap();
    assert_eq!(memory[0x10], 0x30);
    assert_eq!(cpu.registers().p.bits(), p);

    // LDA #$05, DCP $10 with 0x06 there: memory becomes 5, and equals A.
    let (mut cpu, mut memory) = machine(0x0600, &[0xA9, 0x05, 0xC7, 0x10]);
    memory[0x10] = 0x06;
    for _ in 0..2 {
        cpu.step(&mut *memory).unwrap();
    }
    assert_eq!(memory[0x10], 0x05);
    assert!(flag(&cpu, ZERO) && flag(&cpu, CARRY));

    // SEC, LDA #$10, ISB $10 with 0x04 there: 0x10 - 5.
    let (mut cpu, mut memory) = machine(0x0600, &[0x38, 0xA9, 0x10, 0xE7, 0x10]);
    memory[0x10] = 0x04;
    for _ in 0..3 {
        cpu.step(&mut *memory).unwrap();
    }
    assert_eq!(memory[0x10], 0x05);
    assert_eq!(cpu.registers().a, 0x0B);

    // LDA #$01, SLO $10 with 0x81 there: memory 0x02, A = 0x03, carry set.
    let (mut cpu, mut memory) = machine(0x0600, &[0xA9, 0x01, 0x07, 0x10]);
    memory[0x10] = 0x81;
    for _ in 0..2 {
        cpu.step(&mut *memory).unwrap();
    }
    assert_eq!(memory[0x10], 0x02);
    assert_eq!(cpu.registers().a, 0x03);
    assert!(flag(&cpu, CARRY));

    // SEC, LDA #$FF, RLA $10 with 0x40 there: memory 0x81, A = 0x81.
    let (mut cpu, mut memory) = machine(0x0600, &[0x38, 0xA9, 0xFF, 0x27, 0x10]);
    memory[0x10] = 0x40;
    for _ in 0..3 {
        cpu.step(&mut *memory).unwrap();
    }
    assert_eq!(memory[0x10], 0x81);
    assert_eq!(cpu.registers().a, 0x81);
    assert!(!flag(&cpu, CARRY));

    // LDA #$FF, SRE $10 with 0x03 there: memory 0x01, A = 0xFE, carry set.
    let (mut cpu, mut memory) = machine(0x0600, &[0xA9, 0xFF, 0x47, 0x10]);
    memory[0x10] = 0x03;
    for _ in 0..2 {
        cpu.step(&mut *memory).unwrap();
    }
    assert_eq!(memory[0x10], 0x01);
    assert_eq!(cpu.registers().a, 0xFE);
    assert!(flag(&cpu, CARRY));

    // CLC, LDA #$10, RRA $10 with 0x03 there: memory 0x01 and carry, so
    // A = 0x10 + 0x01 + 1.
    let (mut cpu, mut memory) = machine(0x0600, &[0x18, 0xA9, 0x10, 0x67, 0x10]);
    memory[0x10] = 0x03;
    for _ in 0..3 {
        cpu.step(&mut *memory).unwrap();
    }
    assert_eq!(memory[0x10], 0x01);
    assert_eq!(cpu.registers().a, 0x12);
}

#[test]
fn undocumented_nops_skip_their_operands() {
    // NOP #$FF (0x80), NOP $10 (0x04), NOP $1234,X (0x1C), NOP (0x1A).
    let program = [0x80, 0xFF, 0x04, 0x10, 0x1C, 0x34, 0x12, 0x1A];
    let (mut cpu, mut memory) = machine(0x0600, &program);
    let before = *cpu.registers();
    cpu.step(&mut *memory).unwrap();
    assert_eq!(cpu.registers().pc, Address(0x0602));
    cpu.step(&mut *memory).unwrap();
    assert_eq!(cpu.registers().pc, Address(0x0604));
    cpu.step(&mut *memory).unwrap();
    assert_eq!(cpu.registers().pc, Address(0x0607));
    cpu.step(&mut *memory).unwrap();
    assert_eq!(cpu.registers().pc, Address(0x0608));
    assert_eq!(cpu.registers().a, before.a);
    assert_eq!(cpu.registers().p, before.p);
}

#[test]
fn exec_carries_out_a_decoded_instruction() {
    let (mut cpu, mut memory) = machine(0x0600, &[]);
    let outcome = cpu.exec(
        &mut *memory,
        Instruction { operation: Operation::Lda, mode: AddressingMode::Immediate(0x42) },
    );
    assert_eq!(outcome, Ok(()));
    assert_eq!(cpu.registers().a, 0x42);
    let outcome = cpu.exec(
        &mut *memory,
        Instruction { operation: Operation::Stp, mode: AddressingMode::Implicit },
    );
    assert_eq!(outcome, Err(Fatal::Halted));
    assert_eq!(cpu.registers().a, 0x42);
}

#[test]
fn set_pc_moves_the_program_counter() {
    let (mut cpu, mut memory) = machine(0x0600, &[]);
    memory[0x0700] = 0xE8;
    cpu.set_pc(Address(0x0700));
    assert_eq!(cpu.step(&mut *memory), Ok(2));
    assert_eq!(cpu.registers().x, 1);
}

#[test]
fn flat_memory_is_plain() {
    let mut memory: Box<FlatMemory> = Box::new([0u8; 0x10000]);
    memory.store(Address(0xFFFF), 0x12);
    memory.store(Address(0x0000), 0x34);
    assert_eq!(memory.load(Address(0xFFFF)), 0x12);
    assert_eq!(memory.load(Address(0x0000)), 0x34);
    assert_eq!(memory.load(Address(0x0001)), 0x00);
}

#[test]
fn registers_as_text() {
    let (mut cpu, mut memory) = machine(0x0600, &[0xA9, 0x05, 0xA2, 0xFD]);
    cpu.step(&mut *memory).unwrap();
    cpu.step(&mut *memory).unwrap();
    assert_eq!(cpu.registers().p.to_string(), "[N-U--I--]");
    assert_eq!(
        cpu.registers().to_string(),
        "A: 0x5, X: 0xfd, Y: 0x0, S: 0xfd, PC: 0x0604, P: [N-U--I--]"
    );
    assert_eq!(nes::cpu::Flags::from_bits(0xFF).to_string(), "[NVUBDIZC]");
    assert_eq!(nes::cpu::Flags::from_bits(0x00).to_string(), "[--------]");
}

#[test]
fn push_and_pull_at_every_stack_pointer() {
    for s0 in [0x00u8, 0x01, 0x02, 0x7F, 0xFD, 0xFE, 0xFF] {
        let (mut cpu, mut memory) = machine(0x0600, &[]);
        cpu.ldx(AddressingMode::Immediate(s0), &mut *memory);
        cpu.txs();
        cpu.push_stack(&mut *memory, 0x11);
        cpu.push_stack(&mut *memory, 0x22);
        assert_eq!(memory[0x0100 + s0 as usize], 0x11);
        assert_eq!(memory[0x0100 + s0.wrapping_sub(1) as usize], 0x22);
        assert_eq!(cpu.pull_stack(&mut *memory), 0x22);
        assert_eq!(cpu.pull_stack(&mut *memory), 0x11);
        assert_eq!(cpu.registers().s, s0);
        // Nothing outside the stack page was written.
        assert!(memory[..0x0100].iter().all(|byte| *byte == 0));
        assert!(memory[0x0200..0x0600].iter().all(|byte| *byte == 0));
    }
}

#[test]
fn php_then_plp_at_every_status() {
    for bits in 0..=255u8 {
        let (mut cpu, mut memory) = machine(0x0600, &[]);
        // Any status that the register can hold comes in through PLP.
        cpu.push_stack(&mut *memory, bits);
        cpu.plp(&mut *memory);
        let p0 = cpu.registers().p.bits();
        let s0 = cpu.registers().s;
        assert_eq!(p0, (bits | UNUSED) & !BREAK);
        cpu.php(&mut *memory);
        assert_eq!(memory[0x0100 + s0 as usize], p0 | UNUSED | BREAK);
        cpu.plp(&mut *memory);
        let p1 = cpu.registers().p.bits();
        assert_eq!(p1 & 0xCF, p0 & 0xCF);
        assert_eq!(p1 & 0x30, 0x20);
        assert_eq!(p1, p0);
        assert_eq!(cpu.registers().s, s0);
    }
}
