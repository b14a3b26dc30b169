//! What each instruction, each interrupt and each clock cycle does, as
//! functions from the state of the CPU and of the bus to their state
//! afterwards.
//!
//! The state of the bus is threaded through every function, since a load
//! may change the device behind it: the order of the loads and stores is
//! part of what an instruction does.

use super::addressing::AddressingMode;
use super::instruction::{fetched, Fatal, Instruction, Operation, CYCLE_TABLE};
use super::registers::{
    as_live_status, has_flag, with_flag, with_zero_negative, RegisterFile, BREAK, CARRY, DECIMAL,
    INTERRUPT_DISABLE, NEGATIVE, OVERFLOW, UNUSED, ZERO,
};
use crate::mem::address::{le_word, wrap16};
use crate::mem::bus::{read_byte_at, read_word_at, Bus};
use vstd::prelude::*;

verus! {

/// Where the CPU finds the address of its handler for a non-maskable
/// interrupt.
pub const NMI_VECTOR: u16 = 0xFFFA;

/// Where the CPU finds the address at which it starts after a reset.
pub const RESET_VECTOR: u16 = 0xFFFC;

/// Where the CPU finds the address of its handler for an interrupt request
/// and for the software interrupt.
pub const IRQ_VECTOR: u16 = 0xFFFE;

/// The page that holds the stack.
pub const STACK_START: u16 = 0x0100;

/// The whole state of the CPU as plain values.
pub struct CpuState {
    /// The registers.
    pub registers: RegisterFile,
    /// Whether an interrupt request waits for interrupts to be enabled.
    pub irq_pending: bool,
    /// How many cycles of the current instruction are still to pass.
    pub cycles_remaining: u8,
    /// How many cycles have passed since the reset.
    pub cycle: u64,
}

/// The state `cpu` with the registers, and the bus, that an instruction
/// left behind.
pub open spec fn on_registers<M>(cpu: CpuState, outcome: (RegisterFile, M)) -> (CpuState, M) {
    (CpuState { registers: outcome.0, ..cpu }, outcome.1)
}

/// The cycle counter `cycle` after `passed` more cycles. The counter has 64
/// bits and wraps.
pub open spec fn add_cycles(cycle: u64, passed: int) -> u64 {
    ((cycle + passed) % 0x1_0000_0000_0000_0000) as u64
}

/// The carry flag of the status `p` as a number.
pub open spec fn carry_of(p: u8) -> int {
    if has_flag(p, CARRY) {
        1
    } else {
        0
    }
}

/// Whether an addition of `n` and `m` with the 8-bit result `result`
/// overflowed as an addition of signed numbers: both operands differ in
/// sign from the result.
pub open spec fn signed_overflow(n: u8, m: u8, result: u8) -> bool {
    (n ^ result) & (m ^ result) & 0x80 != 0
}

/// The registers after `m` and the carry were added to the accumulator.
/// The decimal flag has no influence.
pub open spec fn add_with_carry(r: RegisterFile, m: u8) -> RegisterFile {
    let sum = r.a + m + carry_of(r.p);
    let result = (sum % 256) as u8;
    let p = with_flag(with_flag(r.p, OVERFLOW, signed_overflow(r.a, m, result)), CARRY, sum > 255);
    RegisterFile { a: result, p: with_zero_negative(p, result), ..r }
}

/// The registers after `m` and the borrow, which is the complement of the
/// carry, were subtracted from the accumulator.
pub open spec fn subtract_with_borrow(r: RegisterFile, m: u8) -> RegisterFile {
    let difference = r.a - m - (1 - carry_of(r.p));
    let result = (difference % 256) as u8;
    let p = with_flag(
        with_flag(r.p, OVERFLOW, signed_overflow(r.a, !m, result)),
        CARRY,
        difference >= 0,
    );
    RegisterFile { a: result, p: with_zero_negative(p, result), ..r }
}

/// The registers after the value `register` of a register was compared
/// with `m`.
pub open spec fn compared(r: RegisterFile, register: u8, m: u8) -> RegisterFile {
    let difference = ((register - m) % 256) as u8;
    RegisterFile { p: with_zero_negative(with_flag(r.p, CARRY, register >= m), difference), ..r }
}

/// The status after a shift or a rotation gave `result` and moved a bit out
/// into the carry.
pub open spec fn shifted_status(p: u8, carry_out: bool, result: u8) -> u8 {
    with_zero_negative(with_flag(p, CARRY, carry_out), result)
}

/// The address of the stack location that the stack pointer `s` names.
pub open spec fn stack_address(s: u8) -> u16 {
    (0x0100 + s) as u16
}

/// The registers and the bus after `value` was pushed: it is written where
/// the stack pointer points, and the stack pointer then goes down by one,
/// wrapping within its page.
pub open spec fn pushed<B: Bus>(r: RegisterFile, bus: B::V, value: u8) -> (RegisterFile, B::V) {
    (
        RegisterFile { s: ((r.s - 1) % 256) as u8, ..r },
        B::after_write(bus, stack_address(r.s), value),
    )
}

/// The value pulled, with the registers and the bus afterwards: the stack
/// pointer goes up by one, wrapping within its page, and the value is read
/// where it then points.
pub open spec fn pulled<B: Bus>(r: RegisterFile, bus: B::V) -> (u8, RegisterFile, B::V) {
    let s = ((r.s + 1) % 256) as u8;
    let (value, after) = read_byte_at::<B>(bus, stack_address(s));
    (value, RegisterFile { s, ..r }, after)
}

/// The registers and the bus after the status register was pulled. UNUSED
/// is forced on and BREAK off, whatever the byte on the stack holds.
pub open spec fn pulled_flags<B: Bus>(r: RegisterFile, bus: B::V) -> (RegisterFile, B::V) {
    let (value, r1, after) = pulled::<B>(r, bus);
    (RegisterFile { p: as_live_status(value), ..r1 }, after)
}

/// The registers after the accumulator became its bitwise AND with `m`.
pub open spec fn and_with(r: RegisterFile, m: u8) -> RegisterFile {
    RegisterFile { a: r.a & m, p: with_zero_negative(r.p, r.a & m), ..r }
}

/// The registers after the accumulator became its bitwise OR with `m`.
pub open spec fn or_with(r: RegisterFile, m: u8) -> RegisterFile {
    RegisterFile { a: r.a | m, p: with_zero_negative(r.p, r.a | m), ..r }
}

/// The registers after the accumulator became its bitwise exclusive OR
/// with `m`.
pub open spec fn eor_with(r: RegisterFile, m: u8) -> RegisterFile {
    RegisterFile { a: r.a ^ m, p: with_zero_negative(r.p, r.a ^ m), ..r }
}

/// The byte `value` doubled, without what does not fit in 8 bits.
pub open spec fn doubled(value: u8) -> u8 {
    ((2 * value) % 256) as u8
}

/// The byte `value` halved.
pub open spec fn halved(value: u8) -> u8 {
    (value / 2) as u8
}

/// The byte `value` rotated to the left through the carry of the status
/// `p`: doubled, with the carry as its bit 0.
pub open spec fn rotated_left(value: u8, p: u8) -> u8 {
    ((2 * value + carry_of(p)) % 256) as u8
}

/// The byte `value` rotated to the right through the carry of the status
/// `p`: halved, with the carry as its bit 7.
pub open spec fn rotated_right(value: u8, p: u8) -> u8 {
    (value / 2 + 128 * carry_of(p)) as u8
}

/// The byte `value` moved up or down by `delta`, wrapping at 8 bits.
pub open spec fn moved(value: u8, delta: int) -> u8 {
    ((value + delta) % 256) as u8
}

/// ADC: add the operand and the carry to the accumulator.
pub open spec fn adc<B: Bus>(r: RegisterFile, bus: B::V, mode: AddressingMode) -> (
    RegisterFile,
    B::V,
) {
    let (m, after) = mode.operand_of::<B>(r, bus);
    (add_with_carry(r, m), after)
}

/// AND: the accumulator becomes its bitwise AND with the operand.
pub open spec fn and<B: Bus>(r: RegisterFile, bus: B::V, mode: AddressingMode) -> (
    RegisterFile,
    B::V,
) {
    let (m, after) = mode.operand_of::<B>(r, bus);
    (and_with(r, m), after)
}

/// The registers and the bus after the operand `value`, read with the bus
/// left as `after`, was replaced by `result`, with `carry_out` moved into
/// the carry.
pub open spec fn replaced<B: Bus>(
    r: RegisterFile,
    after: B::V,
    mode: AddressingMode,
    result: u8,
    carry_out: bool,
) -> (RegisterFile, B::V) {
    let (r1, stored) = mode.after_store::<B>(r, after, result);
    (RegisterFile { p: shifted_status(r1.p, carry_out, result), ..r1 }, stored)
}

/// ASL: the operand is doubled; its bit 7 goes to the carry.
pub open spec fn asl<B: Bus>(r: RegisterFile, bus: B::V, mode: AddressingMode) -> (
    RegisterFile,
    B::V,
) {
    let (value, after) = mode.operand_of::<B>(r, bus);
    replaced::<B>(r, after, mode, doubled(value), value >= 0x80)
}

/// LSR: the operand is halved; its bit 0 goes to the carry.
pub open spec fn lsr<B: Bus>(r: RegisterFile, bus: B::V, mode: AddressingMode) -> (
    RegisterFile,
    B::V,
) {
    let (value, after) = mode.operand_of::<B>(r, bus);
    replaced::<B>(r, after, mode, halved(value), value % 2 == 1)
}

/// ROL: the operand is doubled and the old carry becomes its bit 0; its
/// bit 7 goes to the carry.
pub open spec fn rol<B: Bus>(r: RegisterFile, bus: B::V, mode: AddressingMode) -> (
    RegisterFile,
    B::V,
) {
    let (value, after) = mode.operand_of::<B>(r, bus);
    replaced::<B>(r, after, mode, rotated_left(value, r.p), value >= 0x80)
}

/// ROR: the operand is halved and the old carry becomes its bit 7; its
/// bit 0 goes to the carry.
pub open spec fn ror<B: Bus>(r: RegisterFile, bus: B::V, mode: AddressingMode) -> (
    RegisterFile,
    B::V,
) {
    let (value, after) = mode.operand_of::<B>(r, bus);
    replaced::<B>(r, after, mode, rotated_right(value, r.p), value % 2 == 1)
}

/// A branch: the program counter goes to the target of the mode if the
/// branch is taken, and nothing happens if it is not.
pub open spec fn branch<B: Bus>(r: RegisterFile, bus: B::V, mode: AddressingMode, taken: bool) -> (
    RegisterFile,
    B::V,
) {
    if taken {
        let (target, after) = mode.address_of::<B>(r, bus);
        (RegisterFile { pc: target, ..r }, after)
    } else {
        (r, bus)
    }
}

/// BIT: ZERO tells whether the accumulator and the operand have no bit in
/// common; OVERFLOW and NEGATIVE are bits 6 and 7 of the operand. The
/// accumulator stays as it is.
pub open spec fn bit<B: Bus>(r: RegisterFile, bus: B::V, mode: AddressingMode) -> (
    RegisterFile,
    B::V,
) {
    let (m, after) = mode.operand_of::<B>(r, bus);
    let p = with_flag(
        with_flag(with_flag(r.p, ZERO, r.a & m == 0), OVERFLOW, (m / 64) % 2 == 1),
        NEGATIVE,
        m >= 0x80,
    );
    (RegisterFile { p, ..r }, after)
}

/// The registers with the flags of `mask` switched on or off.
pub open spec fn flag_changed(r: RegisterFile, mask: u8, on: bool) -> RegisterFile {
    RegisterFile { p: with_flag(r.p, mask, on), ..r }
}

/// CMP, CPX, CPY: compare the value `register` of a register with the
/// operand.
pub open spec fn compare<B: Bus>(r: RegisterFile, bus: B::V, mode: AddressingMode, register: u8) -> (
    RegisterFile,
    B::V,
) {
    let (m, after) = mode.operand_of::<B>(r, bus);
    (compared(r, register, m), after)
}

/// INC and DEC: the operand in memory goes up or down by `delta`, wrapping
/// at 8 bits.
pub open spec fn stepped_memory<B: Bus>(
    r: RegisterFile,
    bus: B::V,
    mode: AddressingMode,
    delta: int,
) -> (RegisterFile, B::V) {
    let (value, after) = mode.operand_of::<B>(r, bus);
    let result = moved(value, delta);
    let (r1, stored) = mode.after_store::<B>(r, after, result);
    (RegisterFile { p: with_zero_negative(r1.p, result), ..r1 }, stored)
}

/// DEC: decrement the operand in memory.
pub open spec fn dec<B: Bus>(r: RegisterFile, bus: B::V, mode: AddressingMode) -> (
    RegisterFile,
    B::V,
) {
    stepped_memory::<B>(r, bus, mode, -1)
}

/// INC: increment the operand in memory.
pub open spec fn inc<B: Bus>(r: RegisterFile, bus: B::V, mode: AddressingMode) -> (
    RegisterFile,
    B::V,
) {
    stepped_memory::<B>(r, bus, mode, 1)
}

/// INX, DEX: X goes up or down by `delta`, wrapping at 8 bits.
pub open spec fn stepped_x(r: RegisterFile, delta: int) -> RegisterFile {
    let result = ((r.x + delta) % 256) as u8;
    RegisterFile { x: result, p: with_zero_negative(r.p, result), ..r }
}

/// INY, DEY: Y goes up or down by `delta`, wrapping at 8 bits.
pub open spec fn stepped_y(r: RegisterFile, delta: int) -> RegisterFile {
    let result = ((r.y + delta) % 256) as u8;
    RegisterFile { y: result, p: with_zero_negative(r.p, result), ..r }
}

/// EOR: the accumulator becomes its bitwise exclusive OR with the operand.
pub open spec fn eor<B: Bus>(r: RegisterFile, bus: B::V, mode: AddressingMode) -> (
    RegisterFile,
    B::V,
) {
    let (m, after) = mode.operand_of::<B>(r, bus);
    (eor_with(r, m), after)
}

/// ORA: the accumulator becomes its bitwise OR with the operand.
pub open spec fn ora<B: Bus>(r: RegisterFile, bus: B::V, mode: AddressingMode) -> (
    RegisterFile,
    B::V,
) {
    let (m, after) = mode.operand_of::<B>(r, bus);
    (or_with(r, m), after)
}

/// JMP: the program counter goes to the address that the mode names.
pub open spec fn jmp<B: Bus>(r: RegisterFile, bus: B::V, mode: AddressingMode) -> (
    RegisterFile,
    B::V,
) {
    branch::<B>(r, bus, mode, true)
}

/// JSR: the address of the last byte of the instruction is pushed, high
/// byte first, and the program counter goes to the address that the mode
/// names.
pub open spec fn jsr<B: Bus>(r: RegisterFile, bus: B::V, mode: AddressingMode) -> (
    RegisterFile,
    B::V,
) {
    let back = wrap16(r.pc - 1);
    let (r1, after_high) = pushed::<B>(r, bus, (back / 256) as u8);
    let (r2, after_low) = pushed::<B>(r1, after_high, (back % 256) as u8);
    branch::<B>(r2, after_low, mode, true)
}

/// LDA: load the accumulator with the operand.
pub open spec fn lda<B: Bus>(r: RegisterFile, bus: B::V, mode: AddressingMode) -> (
    RegisterFile,
    B::V,
) {
    let (m, after) = mode.operand_of::<B>(r, bus);
    (RegisterFile { a: m, p: with_zero_negative(r.p, m), ..r }, after)
}

/// LDX: load X with the operand.
pub open spec fn ldx<B: Bus>(r: RegisterFile, bus: B::V, mode: AddressingMode) -> (
    RegisterFile,
    B::V,
) {
    let (m, after) = mode.operand_of::<B>(r, bus);
    (RegisterFile { x: m, p: with_zero_negative(r.p, m), ..r }, after)
}

/// LDY: load Y with the operand.
pub open spec fn ldy<B: Bus>(r: RegisterFile, bus: B::V, mode: AddressingMode) -> (
    RegisterFile,
    B::V,
) {
    let (m, after) = mode.operand_of::<B>(r, bus);
    (RegisterFile { y: m, p: with_zero_negative(r.p, m), ..r }, after)
}

/// NOP: nothing changes; but where the instruction has an operand, the
/// operand is read, which the device behind the bus may notice.
pub open spec fn nop<B: Bus>(r: RegisterFile, bus: B::V, mode: AddressingMode) -> (
    RegisterFile,
    B::V,
) {
    if mode is Implicit {
        (r, bus)
    } else {
        (r, mode.operand_of::<B>(r, bus).1)
    }
}

/// PHP: push the status with UNUSED and BREAK both set in the pushed byte.
pub open spec fn php<B: Bus>(r: RegisterFile, bus: B::V) -> (RegisterFile, B::V) {
    pushed::<B>(r, bus, with_flag(with_flag(r.p, UNUSED, true), BREAK, true))
}

/// PLA: pull the accumulator.
pub open spec fn pla<B: Bus>(r: RegisterFile, bus: B::V) -> (RegisterFile, B::V) {
    let (value, r1, after) = pulled::<B>(r, bus);
    (RegisterFile { a: value, p: with_zero_negative(r1.p, value), ..r1 }, after)
}

/// RTI: pull the status, then the low and the high byte of the program
/// counter, which is taken as it is.
pub open spec fn rti<B: Bus>(r: RegisterFile, bus: B::V) -> (RegisterFile, B::V) {
    let (r1, after_flags) = pulled_flags::<B>(r, bus);
    let (low, r2, after_low) = pulled::<B>(r1, after_flags);
    let (high, r3, after_high) = pulled::<B>(r2, after_low);
    (RegisterFile { pc: le_word(low, high), ..r3 }, after_high)
}

/// RTS: pull the low and the high byte of an address; the program counter
/// goes one past it.
pub open spec fn rts<B: Bus>(r: RegisterFile, bus: B::V) -> (RegisterFile, B::V) {
    let (low, r1, after_low) = pulled::<B>(r, bus);
    let (high, r2, after_high) = pulled::<B>(r1, after_low);
    (RegisterFile { pc: wrap16(le_word(low, high) + 1), ..r2 }, after_high)
}

/// SBC: subtract the operand and the borrow from the accumulator.
pub open spec fn sbc<B: Bus>(r: RegisterFile, bus: B::V, mode: AddressingMode) -> (
    RegisterFile,
    B::V,
) {
    let (m, after) = mode.operand_of::<B>(r, bus);
    (subtract_with_borrow(r, m), after)
}

/// A transfer between registers that sets ZERO and NEGATIVE from the value
/// moved.
pub open spec fn transferred(r: RegisterFile, value: u8) -> RegisterFile {
    RegisterFile { p: with_zero_negative(r.p, value), ..r }
}

/// DCP: the operand is read once and decremented in memory as by DEC; the
/// accumulator is then compared with the value written, as by CMP.
pub open spec fn dcp<B: Bus>(r: RegisterFile, bus: B::V, mode: AddressingMode) -> (
    RegisterFile,
    B::V,
) {
    let value = mode.operand_of::<B>(r, bus).0;
    let (r1, after) = dec::<B>(r, bus, mode);
    (compared(r1, r1.a, moved(value, -1)), after)
}

/// ISB: the operand is read once and incremented in memory as by INC; the
/// value written is then subtracted from the accumulator, as by SBC.
pub open spec fn isb<B: Bus>(r: RegisterFile, bus: B::V, mode: AddressingMode) -> (
    RegisterFile,
    B::V,
) {
    let value = mode.operand_of::<B>(r, bus).0;
    let (r1, after) = inc::<B>(r, bus, mode);
    (subtract_with_borrow(r1, moved(value, 1)), after)
}

/// LAX: the operand is read once, and the byte read is loaded into both
/// the accumulator and X.
pub open spec fn lax<B: Bus>(r: RegisterFile, bus: B::V, mode: AddressingMode) -> (
    RegisterFile,
    B::V,
) {
    let (m, after) = mode.operand_of::<B>(r, bus);
    (RegisterFile { a: m, x: m, p: with_zero_negative(r.p, m), ..r }, after)
}

/// RLA: the operand is read once and rotated left in memory as by ROL; the
/// accumulator then becomes its AND with the value written.
pub open spec fn rla<B: Bus>(r: RegisterFile, bus: B::V, mode: AddressingMode) -> (
    RegisterFile,
    B::V,
) {
    let value = mode.operand_of::<B>(r, bus).0;
    let (r1, after) = rol::<B>(r, bus, mode);
    (and_with(r1, rotated_left(value, r.p)), after)
}

/// RRA: the operand is read once and rotated right in memory as by ROR;
/// the value written is then added to the accumulator, as by ADC, with
/// the carry that the rotation left.
pub open spec fn rra<B: Bus>(r: RegisterFile, bus: B::V, mode: AddressingMode) -> (
    RegisterFile,
    B::V,
) {
    let value = mode.operand_of::<B>(r, bus).0;
    let (r1, after) = ror::<B>(r, bus, mode);
    (add_with_carry(r1, rotated_right(value, r.p)), after)
}

/// SLO: the operand is read once and shifted left in memory as by ASL; the
/// accumulator then becomes its OR with the value written.
pub open spec fn slo<B: Bus>(r: RegisterFile, bus: B::V, mode: AddressingMode) -> (
    RegisterFile,
    B::V,
) {
    let value = mode.operand_of::<B>(r, bus).0;
    let (r1, after) = asl::<B>(r, bus, mode);
    (or_with(r1, doubled(value)), after)
}

/// SRE: the operand is read once and shifted right in memory as by LSR;
/// the accumulator then becomes its exclusive OR with the value written.
pub open spec fn sre<B: Bus>(r: RegisterFile, bus: B::V, mode: AddressingMode) -> (
    RegisterFile,
    B::V,
) {
    let value = mode.operand_of::<B>(r, bus).0;
    let (r1, after) = lsr::<B>(r, bus, mode);
    (eor_with(r1, halved(value)), after)
}

/// The CPU and the bus after an interrupt was taken through the vector at
/// `vector`: the program counter plus one is pushed, high byte first, then
/// the status with BREAK as `brk` says; interrupts are disabled; the
/// program counter is loaded from the vector; seven cycles pass.
pub open spec fn interrupted<B: Bus>(cpu: CpuState, bus: B::V, vector: u16, brk: bool) -> (
    CpuState,
    B::V,
) {
    let r = cpu.registers;
    let back = wrap16(r.pc + 1);
    let (r1, after_high) = pushed::<B>(r, bus, (back / 256) as u8);
    let (r2, after_low) = pushed::<B>(r1, after_high, (back % 256) as u8);
    let (r3, after_flags) = pushed::<B>(r2, after_low, with_flag(r.p, BREAK, brk));
    let (target, after) = read_word_at::<B>(after_flags, vector, wrap16(vector + 1));
    (
        CpuState {
            registers: RegisterFile {
                pc: target,
                p: with_flag(r3.p, INTERRUPT_DISABLE, true),
                ..r3
            },
            cycle: add_cycles(cpu.cycle, 7),
            ..cpu
        },
        after,
    )
}

/// The CPU and the bus after a reset: interrupts are disabled, the program
/// counter is loaded from the reset vector, and the cycle counter starts
/// again at seven, the cycles that the reset took.
pub open spec fn reset<B: Bus>(cpu: CpuState, bus: B::V) -> (CpuState, B::V) {
    let (target, after) = read_word_at::<B>(bus, RESET_VECTOR, wrap16(RESET_VECTOR + 1));
    (
        CpuState {
            registers: RegisterFile {
                pc: target,
                p: with_flag(cpu.registers.p, INTERRUPT_DISABLE, true),
                ..cpu.registers
            },
            cycle: 7,
            cycles_remaining: 0,
            ..cpu
        },
        after,
    )
}

/// The CPU and the bus after an interrupt request: while interrupts are
/// disabled the request is only noted; otherwise the interrupt is taken.
pub open spec fn irq<B: Bus>(cpu: CpuState, bus: B::V) -> (CpuState, B::V) {
    if has_flag(cpu.registers.p, INTERRUPT_DISABLE) {
        (CpuState { irq_pending: true, ..cpu }, bus)
    } else {
        interrupted::<B>(cpu, bus, IRQ_VECTOR, false)
    }
}

/// The CPU and the bus after a non-maskable interrupt, which is always
/// taken.
pub open spec fn nmi<B: Bus>(cpu: CpuState, bus: B::V) -> (CpuState, B::V) {
    interrupted::<B>(cpu, bus, NMI_VECTOR, false)
}

/// The registers and the bus after an instruction other than BRK and STP
/// was carried out.
#[verifier::opaque]
pub open spec fn operated<B: Bus>(r: RegisterFile, bus: B::V, instruction: Instruction) -> (
    RegisterFile,
    B::V,
) {
    let mode = instruction.mode;
    match instruction.operation {
        Operation::Adc => adc::<B>(r, bus, mode),
        Operation::And => and::<B>(r, bus, mode),
        Operation::Asl => asl::<B>(r, bus, mode),
        Operation::Bcc => branch::<B>(r, bus, mode, !has_flag(r.p, CARRY)),
        Operation::Bcs => branch::<B>(r, bus, mode, has_flag(r.p, CARRY)),
        Operation::Beq => branch::<B>(r, bus, mode, has_flag(r.p, ZERO)),
        Operation::Bit => bit::<B>(r, bus, mode),
        Operation::Bmi => branch::<B>(r, bus, mode, has_flag(r.p, NEGATIVE)),
        Operation::Bne => branch::<B>(r, bus, mode, !has_flag(r.p, ZERO)),
        Operation::Bpl => branch::<B>(r, bus, mode, !has_flag(r.p, NEGATIVE)),
        Operation::Bvc => branch::<B>(r, bus, mode, !has_flag(r.p, OVERFLOW)),
        Operation::Bvs => branch::<B>(r, bus, mode, has_flag(r.p, OVERFLOW)),
        Operation::Clc => (flag_changed(r, CARRY, false), bus),
        Operation::Cld => (flag_changed(r, DECIMAL, false), bus),
        Operation::Cli => (flag_changed(r, INTERRUPT_DISABLE, false), bus),
        Operation::Clv => (flag_changed(r, OVERFLOW, false), bus),
        Operation::Cmp => compare::<B>(r, bus, mode, r.a),
        Operation::Cpx => compare::<B>(r, bus, mode, r.x),
        Operation::Cpy => compare::<B>(r, bus, mode, r.y),
        Operation::Dec => dec::<B>(r, bus, mode),
        Operation::Dex => (stepped_x(r, -1), bus),
        Operation::Dey => (stepped_y(r, -1), bus),
        Operation::Eor => eor::<B>(r, bus, mode),
        Operation::Inc => inc::<B>(r, bus, mode),
        Operation::Inx => (stepped_x(r, 1), bus),
        Operation::Iny => (stepped_y(r, 1), bus),
        Operation::Jmp => jmp::<B>(r, bus, mode),
        Operation::Jsr => jsr::<B>(r, bus, mode),
        Operation::Lda => lda::<B>(r, bus, mode),
        Operation::Ldx => ldx::<B>(r, bus, mode),
        Operation::Ldy => ldy::<B>(r, bus, mode),
        Operation::Lsr => lsr::<B>(r, bus, mode),
        Operation::Nop => nop::<B>(r, bus, mode),
        Operation::Ora => ora::<B>(r, bus, mode),
        Operation::Pha => pushed::<B>(r, bus, r.a),
        Operation::Php => php::<B>(r, bus),
        Operation::Pla => pla::<B>(r, bus),
        Operation::Plp => pulled_flags::<B>(r, bus),
        Operation::Rol => rol::<B>(r, bus, mode),
        Operation::Ror => ror::<B>(r, bus, mode),
        Operation::Rti => rti::<B>(r, bus),
        Operation::Rts => rts::<B>(r, bus),
        Operation::Sbc => sbc::<B>(r, bus, mode),
        Operation::Sec => (flag_changed(r, CARRY, true), bus),
        Operation::Sed => (flag_changed(r, DECIMAL, true), bus),
        Operation::Sei => (flag_changed(r, INTERRUPT_DISABLE, true), bus),
        Operation::Sta => mode.after_store::<B>(r, bus, r.a),
        Operation::Stx => mode.after_store::<B>(r, bus, r.x),
        Operation::Sty => mode.after_store::<B>(r, bus, r.y),
        Operation::Tax => (RegisterFile { x: r.a, ..transferred(r, r.a) }, bus),
        Operation::Tay => (RegisterFile { y: r.a, ..transferred(r, r.a) }, bus),
        Operation::Tsx => (RegisterFile { x: r.s, ..transferred(r, r.s) }, bus),
        Operation::Txa => (RegisterFile { a: r.x, ..transferred(r, r.x) }, bus),
        Operation::Txs => (RegisterFile { s: r.x, ..r }, bus),
        Operation::Tya => (RegisterFile { a: r.y, ..transferred(r, r.y) }, bus),
        Operation::Dcp => dcp::<B>(r, bus, mode),
        Operation::Isb => isb::<B>(r, bus, mode),
        Operation::Lax => lax::<B>(r, bus, mode),
        Operation::Rla => rla::<B>(r, bus, mode),
        Operation::Rra => rra::<B>(r, bus, mode),
        Operation::Sax => mode.after_store::<B>(r, bus, r.a & r.x),
        Operation::Slo => slo::<B>(r, bus, mode),
        Operation::Sre => sre::<B>(r, bus, mode),
        Operation::Brk | Operation::Stp => (r, bus),
    }
}

/// What carrying out one decoded instruction gives, with the CPU and the
/// bus afterwards. BRK is the software interrupt; STP is fatal and changes
/// nothing.
#[verifier::opaque]
pub open spec fn executed<B: Bus>(cpu: CpuState, bus: B::V, instruction: Instruction) -> (
    Result<(), Fatal>,
    CpuState,
    B::V,
) {
    match instruction.operation {
        Operation::Stp => (Err(Fatal::Halted), cpu, bus),
        Operation::Brk => {
            let (after, bus_after) = interrupted::<B>(cpu, bus, IRQ_VECTOR, true);
            (Ok(()), after, bus_after)
        },
        _ => {
            let (after, bus_after) = on_registers(
                cpu,
                operated::<B>(cpu.registers, bus, instruction),
            );
            (Ok(()), after, bus_after)
        },
    }
}

/// The CPU and the bus at the point where the next instruction is fetched:
/// an interrupt request that was waiting is taken first, if interrupts are
/// enabled by now.
pub open spec fn pending_served<B: Bus>(cpu: CpuState, bus: B::V) -> (CpuState, B::V) {
    if cpu.irq_pending && !has_flag(cpu.registers.p, INTERRUPT_DISABLE) {
        interrupted::<B>(CpuState { irq_pending: false, ..cpu }, bus, IRQ_VECTOR, false)
    } else {
        (cpu, bus)
    }
}

/// What one step gives, with the CPU and the bus afterwards: a waiting
/// interrupt request is served, one instruction is fetched and carried out,
/// and the number of cycles that its opcode costs is the result. The step
/// is fatal if the opcode is unstable, if the instruction is STP, or if the
/// program counter ends where it was when the step began.
#[verifier::opaque]
pub open spec fn stepped<B: Bus>(cpu: CpuState, bus: B::V) -> (Result<u8, Fatal>, CpuState, B::V) {
    let (served, after_served) = pending_served::<B>(cpu, bus);
    let (fetch, pc, after_fetch) = fetched::<B>(after_served, served.registers.pc);
    let at_fetch = CpuState { registers: RegisterFile { pc, ..served.registers }, ..served };
    match fetch {
        Err(fatal) => (Err(fatal), at_fetch, after_fetch),
        Ok((instruction, opcode)) => {
            let (outcome, after, bus_after) = executed::<B>(at_fetch, after_fetch, instruction);
            match outcome {
                Err(fatal) => (Err(fatal), after, bus_after),
                Ok(_) => if after.registers.pc == cpu.registers.pc {
                    (
                        Err(Fatal::InfiniteLoop { pc: crate::mem::address::Address(cpu.registers.pc) }),
                        after,
                        bus_after,
                    )
                } else {
                    (Ok(CYCLE_TABLE[opcode as int]), after, bus_after)
                },
            }
        },
    }
}

/// What one clock cycle gives, with the CPU and the bus afterwards. On the
/// first cycle of an instruction the whole instruction is carried out, and
/// the cycles that are left of its cost are noted; on each later cycle one
/// of them passes. The cycle counter goes up either way.
pub open spec fn ticked<B: Bus>(cpu: CpuState, bus: B::V) -> (Result<(), Fatal>, CpuState, B::V) {
    if cpu.cycles_remaining == 0 {
        let (outcome, after, bus_after) = stepped::<B>(cpu, bus);
        match outcome {
            Ok(cost) => (
                Ok(()),
                CpuState {
                    cycles_remaining: (cost - 1) as u8,
                    cycle: add_cycles(after.cycle, 1),
                    ..after
                },
                bus_after,
            ),
            Err(fatal) => (
                Err(fatal),
                CpuState { cycle: add_cycles(after.cycle, 1), ..after },
                bus_after,
            ),
        }
    } else {
        (
            Ok(()),
            CpuState {
                cycles_remaining: (cpu.cycles_remaining - 1) as u8,
                cycle: add_cycles(cpu.cycle, 1),
                ..cpu
            },
            bus,
        )
    }
}

/// What `count` clock cycles give, with the CPU and the bus afterwards. The
/// first fatal cycle is the last.
pub open spec fn ticked_times<B: Bus>(cpu: CpuState, bus: B::V, count: nat) -> (
    Result<(), Fatal>,
    CpuState,
    B::V,
)
    decreases count,
{
    if count == 0 {
        (Ok(()), cpu, bus)
    } else {
        let (outcome, after, bus_after) = ticked::<B>(cpu, bus);
        match outcome {
            Err(fatal) => (Err(fatal), after, bus_after),
            Ok(_) => ticked_times::<B>(after, bus_after, (count - 1) as nat),
        }
    }
}

/// What running gives, with the CPU and the bus afterwards: steps are taken
/// until the program counter is at `end`, which gives `true`, or until
/// `steps` of them were taken, which gives `false`, or until one is fatal.
pub open spec fn ran<B: Bus>(cpu: CpuState, bus: B::V, end: Option<u16>, steps: nat) -> (
    Result<bool, Fatal>,
    CpuState,
    B::V,
)
    decreases steps,
{
    if end == Some(cpu.registers.pc) {
        (Ok(true), cpu, bus)
    } else if steps == 0 {
        (Ok(false), cpu, bus)
    } else {
        let (outcome, after, bus_after) = stepped::<B>(cpu, bus);
        match outcome {
            Err(fatal) => (Err(fatal), after, bus_after),
            Ok(_) => ran::<B>(after, bus_after, end, (steps - 1) as nat),
        }
    }
}

} // verus!
