//! Laws of the CPU: what holds of its instructions whatever the state they
//! start from.

use crate::cpu::addressing::AddressingMode;
use crate::cpu::instruction::{
    fetched, opcode_entry, Fatal, Instruction, ModeKind, Operation, CYCLE_TABLE,
};
use crate::cpu::registers::{
    as_live_status, has_flag, is_live_status, lemma_flag_bits, lemma_flags_independent,
    lemma_live_status_kept, with_flag, with_zero_negative, RegisterFile, BREAK, CARRY, DECIMAL,
    INTERRUPT_DISABLE, OVERFLOW, UNUSED, ZERO,
};
use crate::cpu::semantics;
use crate::cpu::semantics::{
    add_with_carry, carry_of, executed, interrupted, irq, jmp, nmi, operated, pending_served, php,
    pulled, pulled_flags, pushed, reset, signed_overflow, stepped, subtract_with_borrow, ticked,
    CpuState,
};
use crate::mem::address::{le_word, Address};
use crate::mem::bus::{Bus, FlatMemory};
use vstd::prelude::*;

verus! {

/// The status register is live at power-on.
pub proof fn lemma_initial_status_live()
    ensures
        is_live_status(crate::cpu::initial_state().registers.p),
{
    lemma_flag_bits(0x24, 0, 0, true);
}

/// Instructions that read their operand and compute flags keep the status live.
proof fn lemma_reads_keep_live<B: Bus>(r: RegisterFile, bus: B::V, mode: AddressingMode)
    requires
        is_live_status(r.p),
    ensures
        is_live_status(semantics::adc::<B>(r, bus, mode).0.p),
        is_live_status(semantics::and::<B>(r, bus, mode).0.p),
        is_live_status(semantics::bit::<B>(r, bus, mode).0.p),
        is_live_status(semantics::eor::<B>(r, bus, mode).0.p),
        is_live_status(semantics::lda::<B>(r, bus, mode).0.p),
        is_live_status(semantics::ldx::<B>(r, bus, mode).0.p),
        is_live_status(semantics::ldy::<B>(r, bus, mode).0.p),
        is_live_status(semantics::ora::<B>(r, bus, mode).0.p),
        is_live_status(semantics::sbc::<B>(r, bus, mode).0.p),
        is_live_status(semantics::nop::<B>(r, bus, mode).0.p),
{
    lemma_live_status_kept();
}

/// Comparisons keep the status live.
proof fn lemma_compare_keeps_live<B: Bus>(r: RegisterFile, bus: B::V, mode: AddressingMode, register: u8)
    requires
        is_live_status(r.p),
    ensures
        is_live_status(semantics::compare::<B>(r, bus, mode, register).0.p),
{
    lemma_live_status_kept();
}

/// Shifts and rotations keep the status live.
proof fn lemma_shifts_keep_live<B: Bus>(r: RegisterFile, bus: B::V, mode: AddressingMode)
    requires
        is_live_status(r.p),
    ensures
        is_live_status(semantics::asl::<B>(r, bus, mode).0.p),
        is_live_status(semantics::lsr::<B>(r, bus, mode).0.p),
        is_live_status(semantics::rol::<B>(r, bus, mode).0.p),
        is_live_status(semantics::ror::<B>(r, bus, mode).0.p),
{
    lemma_live_status_kept();
}

/// Increments and decrements of memory keep the status live.
proof fn lemma_steps_keep_live<B: Bus>(r: RegisterFile, bus: B::V, mode: AddressingMode)
    requires
        is_live_status(r.p),
    ensures
        is_live_status(semantics::inc::<B>(r, bus, mode).0.p),
        is_live_status(semantics::dec::<B>(r, bus, mode).0.p),
{
    lemma_live_status_kept();
}

/// Jumps keep the status as it is.
proof fn lemma_jumps_keep_live<B: Bus>(r: RegisterFile, bus: B::V, mode: AddressingMode)
    requires
        is_live_status(r.p),
    ensures
        is_live_status(semantics::jmp::<B>(r, bus, mode).0.p),
        is_live_status(semantics::jsr::<B>(r, bus, mode).0.p),
{
    lemma_live_status_kept();
}

/// The undocumented instructions, each made of two documented ones, keep
/// the status live.
proof fn lemma_undocumented_keep_live<B: Bus>(r: RegisterFile, bus: B::V, mode: AddressingMode)
    requires
        is_live_status(r.p),
    ensures
        is_live_status(semantics::dcp::<B>(r, bus, mode).0.p),
        is_live_status(semantics::isb::<B>(r, bus, mode).0.p),
        is_live_status(semantics::lax::<B>(r, bus, mode).0.p),
        is_live_status(semantics::rla::<B>(r, bus, mode).0.p),
        is_live_status(semantics::rra::<B>(r, bus, mode).0.p),
        is_live_status(semantics::slo::<B>(r, bus, mode).0.p),
        is_live_status(semantics::sre::<B>(r, bus, mode).0.p),
{
    lemma_steps_keep_live::<B>(r, bus, mode);
    lemma_shifts_keep_live::<B>(r, bus, mode);
    lemma_live_status_kept();
}

/// The instructions that work on the stack keep the status live.
proof fn lemma_stack_keeps_live<B: Bus>(r: RegisterFile, bus: B::V, value: u8)
    requires
        is_live_status(r.p),
    ensures
        is_live_status(pushed::<B>(r, bus, value).0.p),
        is_live_status(php::<B>(r, bus).0.p),
        is_live_status(semantics::pla::<B>(r, bus).0.p),
        is_live_status(pulled_flags::<B>(r, bus).0.p),
        is_live_status(semantics::rti::<B>(r, bus).0.p),
        is_live_status(semantics::rts::<B>(r, bus).0.p),
{
    lemma_live_status_kept();
}

/// The instructions that work on registers alone keep the status live.
proof fn lemma_registers_keep_live(r: RegisterFile, value: u8, delta: int, on: bool)
    requires
        is_live_status(r.p),
    ensures
        is_live_status(semantics::flag_changed(r, CARRY, on).p),
        is_live_status(semantics::flag_changed(r, DECIMAL, on).p),
        is_live_status(semantics::flag_changed(r, INTERRUPT_DISABLE, on).p),
        is_live_status(semantics::flag_changed(r, OVERFLOW, on).p),
        is_live_status(semantics::stepped_x(r, delta).p),
        is_live_status(semantics::stepped_y(r, delta).p),
        is_live_status(semantics::transferred(r, value).p),
{
    lemma_live_status_kept();
}

/// An instruction leaves a live status register live: no instruction can
/// clear UNUSED or set BREAK in it.
pub proof fn lemma_instruction_keeps_status_live<B: Bus>(
    cpu: CpuState,
    bus: B::V,
    instruction: Instruction,
)
    requires
        is_live_status(cpu.registers.p),
    ensures
        is_live_status(executed::<B>(cpu, bus, instruction).1.registers.p),
{
    reveal(executed);
    reveal(operated);
    let r = cpu.registers;
    let mode = instruction.mode;
    lemma_interrupts_keep_status_live::<B>(cpu, bus, semantics::IRQ_VECTOR, true);
    lemma_reads_keep_live::<B>(r, bus, mode);
    lemma_compare_keeps_live::<B>(r, bus, mode, r.a);
    lemma_compare_keeps_live::<B>(r, bus, mode, r.x);
    lemma_compare_keeps_live::<B>(r, bus, mode, r.y);
    lemma_shifts_keep_live::<B>(r, bus, mode);
    lemma_steps_keep_live::<B>(r, bus, mode);
    lemma_jumps_keep_live::<B>(r, bus, mode);
    lemma_undocumented_keep_live::<B>(r, bus, mode);
    lemma_stack_keeps_live::<B>(r, bus, r.a);
    lemma_registers_keep_live(r, r.a, 1, true);
    lemma_registers_keep_live(r, r.x, -1, false);
    lemma_registers_keep_live(r, r.y, 1, true);
    lemma_registers_keep_live(r, r.s, 1, true);
}

/// Interrupts and the reset leave a live status register live.
pub proof fn lemma_interrupts_keep_status_live<B: Bus>(cpu: CpuState, bus: B::V, vector: u16, brk: bool)
    requires
        is_live_status(cpu.registers.p),
    ensures
        is_live_status(interrupted::<B>(cpu, bus, vector, brk).0.registers.p),
        is_live_status(irq::<B>(cpu, bus).0.registers.p),
        is_live_status(nmi::<B>(cpu, bus).0.registers.p),
        is_live_status(reset::<B>(cpu, bus).0.registers.p),
{
    lemma_live_status_kept();
}

/// In every state that the CPU can reach, UNUSED is set and BREAK is clear
/// in the status register: a step and a clock cycle leave a live status
/// register live, fatal or not.
pub proof fn lemma_step_keeps_status_live<B: Bus>(cpu: CpuState, bus: B::V)
    requires
        is_live_status(cpu.registers.p),
    ensures
        is_live_status(stepped::<B>(cpu, bus).1.registers.p),
        is_live_status(ticked::<B>(cpu, bus).1.registers.p),
{
    reveal(stepped);
    let (served, after_served) = pending_served::<B>(cpu, bus);
    lemma_interrupts_keep_status_live::<B>(
        CpuState { irq_pending: false, ..cpu },
        bus,
        crate::cpu::semantics::IRQ_VECTOR,
        false,
    );
    let (fetch, pc, after_fetch) = fetched::<B>(after_served, served.registers.pc);
    let at_fetch = CpuState { registers: RegisterFile { pc, ..served.registers }, ..served };
    match fetch {
        Ok((instruction, _)) => {
            lemma_instruction_keeps_status_live::<B>(at_fetch, after_fetch, instruction);
        },
        Err(_) => {},
    }
}

/// Whether `opcode` is one of the thirteen undocumented opcodes whose
/// effect depends on analog properties of the chip.
pub open spec fn is_unstable_opcode(opcode: u8) -> bool {
    ||| opcode == 0x0B
    ||| opcode == 0x2B
    ||| opcode == 0x4B
    ||| opcode == 0x6B
    ||| opcode == 0x8B
    ||| opcode == 0x93
    ||| opcode == 0x9B
    ||| opcode == 0x9C
    ||| opcode == 0x9E
    ||| opcode == 0x9F
    ||| opcode == 0xAB
    ||| opcode == 0xBB
    ||| opcode == 0xCB
}

/// The opcode of each documented instruction: the byte that stands for an
/// operation with an addressing mode in the instruction set as its maker
/// published it, instruction by instruction. The undocumented instructions
/// have no place in it.
pub open spec fn documented_opcode(operation: Operation, kind: ModeKind) -> Option<u8> {
    match operation {
        Operation::Adc => match kind {
            ModeKind::Immediate => Some(0x69),
            ModeKind::ZeroPage => Some(0x65),
            ModeKind::ZeroPageX => Some(0x75),
            ModeKind::Absolute => Some(0x6D),
            ModeKind::AbsoluteX => Some(0x7D),
            ModeKind::AbsoluteY => Some(0x79),
            ModeKind::IndexedIndirect => Some(0x61),
            ModeKind::IndirectIndexed => Some(0x71),
            _ => None,
        },
        Operation::And => match kind {
            ModeKind::Immediate => Some(0x29),
            ModeKind::ZeroPage => Some(0x25),
            ModeKind::ZeroPageX => Some(0x35),
            ModeKind::Absolute => Some(0x2D),
            ModeKind::AbsoluteX => Some(0x3D),
            ModeKind::AbsoluteY => Some(0x39),
            ModeKind::IndexedIndirect => Some(0x21),
            ModeKind::IndirectIndexed => Some(0x31),
            _ => None,
        },
        Operation::Asl => match kind {
            ModeKind::Accumulator => Some(0x0A),
            ModeKind::ZeroPage => Some(0x06),
            ModeKind::ZeroPageX => Some(0x16),
            ModeKind::Absolute => Some(0x0E),
            ModeKind::AbsoluteX => Some(0x1E),
            _ => None,
        },
        Operation::Bcc => match kind {
            ModeKind::Relative => Some(0x90),
            _ => None,
        },
        Operation::Bcs => match kind {
            ModeKind::Relative => Some(0xB0),
            _ => None,
        },
        Operation::Beq => match kind {
            ModeKind::Relative => Some(0xF0),
            _ => None,
        },
        Operation::Bit => match kind {
            ModeKind::ZeroPage => Some(0x24),
            ModeKind::Absolute => Some(0x2C),
            _ => None,
        },
        Operation::Bmi => match kind {
            ModeKind::Relative => Some(0x30),
            _ => None,
        },
        Operation::Bne => match kind {
            ModeKind::Relative => Some(0xD0),
            _ => None,
        },
        Operation::Bpl => match kind {
            ModeKind::Relative => Some(0x10),
            _ => None,
        },
        Operation::Brk => match kind {
            ModeKind::Implicit => Some(0x00),
            _ => None,
        },
        Operation::Bvc => match kind {
            ModeKind::Relative => Some(0x50),
            _ => None,
        },
        Operation::Bvs => match kind {
            ModeKind::Relative => Some(0x70),
            _ => None,
        },
        Operation::Clc => match kind {
            ModeKind::Implicit => Some(0x18),
            _ => None,
        },
        Operation::Cld => match kind {
            ModeKind::Implicit => Some(0xD8),
            _ => None,
        },
        Operation::Cli => match kind {
            ModeKind::Implicit => Some(0x58),
            _ => None,
        },
        Operation::Clv => match kind {
            ModeKind::Implicit => Some(0xB8),
            _ => None,
        },
        Operation::Cmp => match kind {
            ModeKind::Immediate => Some(0xC9),
            ModeKind::ZeroPage => Some(0xC5),
            ModeKind::ZeroPageX => Some(0xD5),
            ModeKind::Absolute => Some(0xCD),
            ModeKind::AbsoluteX => Some(0xDD),
            ModeKind::AbsoluteY => Some(0xD9),
            ModeKind::IndexedIndirect => Some(0xC1),
            ModeKind::IndirectIndexed => Some(0xD1),
            _ => None,
        },
        Operation::Cpx => match kind {
            ModeKind::Immediate => Some(0xE0),
            ModeKind::ZeroPage => Some(0xE4),
            ModeKind::Absolute => Some(0xEC),
            _ => None,
        },
        Operation::Cpy => match kind {
            ModeKind::Immediate => Some(0xC0),
            ModeKind::ZeroPage => Some(0xC4),
            ModeKind::Absolute => Some(0xCC),
            _ => None,
        },
        Operation::Dec => match kind {
            ModeKind::ZeroPage => Some(0xC6),
            ModeKind::ZeroPageX => Some(0xD6),
            ModeKind::Absolute => Some(0xCE),
            ModeKind::AbsoluteX => Some(0xDE),
            _ => None,
        },
        Operation::Dex => match kind {
            ModeKind::Implicit => Some(0xCA),
            _ => None,
        },
        Operation::Dey => match kind {
            ModeKind::Implicit => Some(0x88),
            _ => None,
        },
        Operation::Eor => match kind {
            ModeKind::Immediate => Some(0x49),
            ModeKind::ZeroPage => Some(0x45),
            ModeKind::ZeroPageX => Some(0x55),
            ModeKind::Absolute => Some(0x4D),
            ModeKind::AbsoluteX => Some(0x5D),
            ModeKind::AbsoluteY => Some(0x59),
            ModeKind::IndexedIndirect => Some(0x41),
            ModeKind::IndirectIndexed => Some(0x51),
            _ => None,
        },
        Operation::Inc => match kind {
            ModeKind::ZeroPage => Some(0xE6),
            ModeKind::ZeroPageX => Some(0xF6),
            ModeKind::Absolute => Some(0xEE),
            ModeKind::AbsoluteX => Some(0xFE),
            _ => None,
        },
        Operation::Inx => match kind {
            ModeKind::Implicit => Some(0xE8),
            _ => None,
        },
        Operation::Iny => match kind {
            ModeKind::Implicit => Some(0xC8),
            _ => None,
        },
        Operation::Jmp => match kind {
            ModeKind::Absolute => Some(0x4C),
            ModeKind::Indirect => Some(0x6C),
            _ => None,
        },
        Operation::Jsr => match kind {
            ModeKind::Absolute => Some(0x20),
            _ => None,
        },
        Operation::Lda => match kind {
            ModeKind::Immediate => Some(0xA9),
            ModeKind::ZeroPage => Some(0xA5),
            ModeKind::ZeroPageX => Some(0xB5),
            ModeKind::Absolute => Some(0xAD),
            ModeKind::AbsoluteX => Some(0xBD),
            ModeKind::AbsoluteY => Some(0xB9),
            ModeKind::IndexedIndirect => Some(0xA1),
            ModeKind::IndirectIndexed => Some(0xB1),
            _ => None,
        },
        Operation::Ldx => match kind {
            ModeKind::Immediate => Some(0xA2),
            ModeKind::ZeroPage => Some(0xA6),
            ModeKind::ZeroPageY => Some(0xB6),
            ModeKind::Absolute => Some(0xAE),
            ModeKind::AbsoluteY => Some(0xBE),
            _ => None,
        },
        Operation::Ldy => match kind {
            ModeKind::Immediate => Some(0xA0),
            ModeKind::ZeroPage => Some(0xA4),
            ModeKind::ZeroPageX => Some(0xB4),
            ModeKind::Absolute => Some(0xAC),
            ModeKind::AbsoluteX => Some(0xBC),
            _ => None,
        },
        Operation::Lsr => match kind {
            ModeKind::Accumulator => Some(0x4A),
            ModeKind::ZeroPage => Some(0x46),
            ModeKind::ZeroPageX => Some(0x56),
            ModeKind::Absolute => Some(0x4E),
            ModeKind::AbsoluteX => Some(0x5E),
            _ => None,
        },
        Operation::Nop => match kind {
            ModeKind::Implicit => Some(0xEA),
            _ => None,
        },
        Operation::Ora => match kind {
            ModeKind::Immediate => Some(0x09),
            ModeKind::ZeroPage => Some(0x05),
            ModeKind::ZeroPageX => Some(0x15),
            ModeKind::Absolute => Some(0x0D),
            ModeKind::AbsoluteX => Some(0x1D),
            ModeKind::AbsoluteY => Some(0x19),
            ModeKind::IndexedIndirect => Some(0x01),
            ModeKind::IndirectIndexed => Some(0x11),
            _ => None,
        },
        Operation::Pha => match kind {
            ModeKind::Implicit => Some(0x48),
            _ => None,
        },
        Operation::Php => match kind {
            ModeKind::Implicit => Some(0x08),
            _ => None,
        },
        Operation::Pla => match kind {
            ModeKind::Implicit => Some(0x68),
            _ => None,
        },
        Operation::Plp => match kind {
            ModeKind::Implicit => Some(0x28),
            _ => None,
        },
        Operation::Rol => match kind {
            ModeKind::Accumulator => Some(0x2A),
            ModeKind::ZeroPage => Some(0x26),
            ModeKind::ZeroPageX => Some(0x36),
            ModeKind::Absolute => Some(0x2E),
            ModeKind::AbsoluteX => Some(0x3E),
            _ => None,
        },
        Operation::Ror => match kind {
            ModeKind::Accumulator => Some(0x6A),
            ModeKind::ZeroPage => Some(0x66),
            ModeKind::ZeroPageX => Some(0x76),
            ModeKind::Absolute => Some(0x6E),
            ModeKind::AbsoluteX => Some(0x7E),
            _ => None,
        },
        Operation::Rti => match kind {
            ModeKind::Implicit => Some(0x40),
            _ => None,
        },
        Operation::Rts => match kind {
            ModeKind::Implicit => Some(0x60),
            _ => None,
        },
        Operation::Sbc => match kind {
            ModeKind::Immediate => Some(0xE9),
            ModeKind::ZeroPage => Some(0xE5),
            ModeKind::ZeroPageX => Some(0xF5),
            ModeKind::Absolute => Some(0xED),
            ModeKind::AbsoluteX => Some(0xFD),
            ModeKind::AbsoluteY => Some(0xF9),
            ModeKind::IndexedIndirect => Some(0xE1),
            ModeKind::IndirectIndexed => Some(0xF1),
            _ => None,
        },
        Operation::Sec => match kind {
            ModeKind::Implicit => Some(0x38),
            _ => None,
        },
        Operation::Sed => match kind {
            ModeKind::Implicit => Some(0xF8),
            _ => None,
        },
        Operation::Sei => match kind {
            ModeKind::Implicit => Some(0x78),
            _ => None,
        },
        Operation::Sta => match kind {
            ModeKind::ZeroPage => Some(0x85),
            ModeKind::ZeroPageX => Some(0x95),
            ModeKind::Absolute => Some(0x8D),
            ModeKind::AbsoluteX => Some(0x9D),
            ModeKind::AbsoluteY => Some(0x99),
            ModeKind::IndexedIndirect => Some(0x81),
            ModeKind::IndirectIndexed => Some(0x91),
            _ => None,
        },
        Operation::Stx => match kind {
            ModeKind::ZeroPage => Some(0x86),
            ModeKind::ZeroPageY => Some(0x96),
            ModeKind::Absolute => Some(0x8E),
            _ => None,
        },
        Operation::Sty => match kind {
            ModeKind::ZeroPage => Some(0x84),
            ModeKind::ZeroPageX => Some(0x94),
            ModeKind::Absolute => Some(0x8C),
            _ => None,
        },
        Operation::Tax => match kind {
            ModeKind::Implicit => Some(0xAA),
            _ => None,
        },
        Operation::Tay => match kind {
            ModeKind::Implicit => Some(0xA8),
            _ => None,
        },
        Operation::Tsx => match kind {
            ModeKind::Implicit => Some(0xBA),
            _ => None,
        },
        Operation::Txa => match kind {
            ModeKind::Implicit => Some(0x8A),
            _ => None,
        },
        Operation::Txs => match kind {
            ModeKind::Implicit => Some(0x9A),
            _ => None,
        },
        Operation::Tya => match kind {
            ModeKind::Implicit => Some(0x98),
            _ => None,
        },
        _ => None,
    }
}

/// The opcode table agrees with the published instruction set: each of its
/// opcodes decodes to the operation and the addressing mode that it was
/// published for. No two instructions of the set share an opcode, since an
/// opcode decodes in one way only.
pub proof fn lemma_documented_opcodes_decode(operation: Operation, kind: ModeKind)
    ensures
        documented_opcode(operation, kind) matches Some(opcode) ==> opcode_entry(opcode) == Some(
            (operation, kind),
        ),
{
}

/// Decoding is total: every opcode either stands for an operation with an
/// addressing mode that the operation accepts, or is one of the unstable
/// opcodes, and then fetching it is fatal with the address and the opcode.
pub proof fn lemma_decode_total<B: Bus>(bus: B::V, pc: u16)
    ensures
        ({
            let opcode = B::read(bus, pc);
            let (outcome, _, _) = fetched::<B>(bus, pc);
            if is_unstable_opcode(opcode) {
                outcome == Err::<(Instruction, u8), Fatal>(
                    Fatal::IllegalOpcode { pc: Address(pc), opcode },
                )
            } else {
                &&& outcome matches Ok((instruction, code))
                &&& code == opcode
                &&& opcode_entry(opcode) == Some((instruction.operation, instruction.mode.kind()))
                &&& instruction.well_formed()
            }
        }),
{
}

/// After ADC, carry and accumulator together hold the whole sum: 256 times
/// the carry, plus the accumulator, is the old accumulator plus the operand
/// plus the old carry.
pub proof fn lemma_adc_sum(r: RegisterFile, m: u8)
    ensures
        256 * carry_of(add_with_carry(r, m).p) + add_with_carry(r, m).a == r.a + m + carry_of(r.p),
{
    let sum = r.a + m + carry_of(r.p);
    let result = (sum % 256) as u8;
    lemma_carry_survives(r.p, signed_overflow(r.a, m, result), sum > 255, result);
}

/// After SBC, the accumulator is the old accumulator minus the operand
/// minus the borrow, modulo 256, and the carry tells that nothing had to be
/// borrowed: that the old accumulator was at least the operand plus the
/// borrow.
pub proof fn lemma_sbc_difference(r: RegisterFile, m: u8)
    ensures
        subtract_with_borrow(r, m).a == (r.a - m - (1 - carry_of(r.p))) % 256,
        has_flag(subtract_with_borrow(r, m).p, CARRY) <==> r.a >= m + (1 - carry_of(r.p)),
{
    let difference = r.a - m - (1 - carry_of(r.p));
    let result = (difference % 256) as u8;
    lemma_carry_survives(r.p, signed_overflow(r.a, !m, result), difference >= 0, result);
}

/// The byte `byte` read as a two's-complement number.
pub open spec fn as_signed(byte: u8) -> int {
    if byte < 0x80 {
        byte as int
    } else {
        byte - 256
    }
}

/// What the overflow test on sign bits means in numbers: the operands have
/// the same sign and the result has the other.
proof fn lemma_sign_bits(n: u8, m: u8, result: u8)
    by (bit_vector)
    ensures
        signed_overflow(n, m, result) <==> ((n < 0x80) == (m < 0x80) && (n < 0x80) != (result
            < 0x80)),
        (!m < 0x80) <==> m >= 0x80,
        !m == 255 - m,
{
}

/// The overflow that an addition or a subtraction sets is the overflow
/// found afterwards: setting CARRY, ZERO and NEGATIVE leaves it alone.
proof fn lemma_overflow_survives(before: u8, overflow: bool, carry: bool, result: u8)
    ensures
        has_flag(
            with_zero_negative(with_flag(with_flag(before, OVERFLOW, overflow), CARRY, carry), result),
            OVERFLOW,
        ) <==> overflow,
{
    let p1 = with_flag(before, OVERFLOW, overflow);
    let p2 = with_flag(p1, CARRY, carry);
    let p3 = with_flag(p2, ZERO, result == 0);
    lemma_flags_independent(before, overflow);
    lemma_flags_independent(p1, carry);
    lemma_flags_independent(p2, result == 0);
    lemma_flags_independent(p3, result >= 0x80);
}

/// After ADC, OVERFLOW tells that the sum of the accumulator, the operand
/// and the carry, with accumulator and operand read as signed numbers,
/// does not fit in a signed byte.
pub proof fn lemma_adc_overflow(r: RegisterFile, m: u8)
    ensures
        has_flag(add_with_carry(r, m).p, OVERFLOW) <==> !(-128 <= as_signed(r.a) + as_signed(m)
            + carry_of(r.p) <= 127),
{
    let sum = r.a + m + carry_of(r.p);
    let result = (sum % 256) as u8;
    lemma_sign_bits(r.a, m, result);
    lemma_overflow_survives(r.p, signed_overflow(r.a, m, result), sum > 255, result);
}

/// After SBC, OVERFLOW tells that the accumulator minus the operand minus
/// the borrow, with accumulator and operand read as signed numbers, does
/// not fit in a signed byte.
pub proof fn lemma_sbc_overflow(r: RegisterFile, m: u8)
    ensures
        has_flag(subtract_with_borrow(r, m).p, OVERFLOW) <==> !(-128 <= as_signed(r.a) - as_signed(
            m,
        ) - (1 - carry_of(r.p)) <= 127),
{
    let difference = r.a - m - (1 - carry_of(r.p));
    let result = (difference % 256) as u8;
    lemma_sign_bits(r.a, !m, result);
    lemma_sign_bits(r.a, m, result);
    lemma_overflow_survives(r.p, signed_overflow(r.a, !m, result), difference >= 0, result);
}

/// The carry that an addition or a subtraction sets is the carry found
/// afterwards: setting ZERO and NEGATIVE leaves it alone.
proof fn lemma_carry_survives(before: u8, overflow: bool, carry: bool, result: u8)
    ensures
        has_flag(
            with_zero_negative(with_flag(with_flag(before, OVERFLOW, overflow), CARRY, carry), result),
            CARRY,
        ) <==> carry,
{
    let p1 = with_flag(before, OVERFLOW, overflow);
    let p2 = with_flag(p1, CARRY, carry);
    let p3 = with_flag(p2, ZERO, result == 0);
    lemma_flags_independent(p1, carry);
    lemma_flags_independent(p2, result == 0);
    lemma_flags_independent(p3, result >= 0x80);
}

/// Every access to the stack stays within the stack page.
pub proof fn lemma_stack_in_page(s: u8)
    ensures
        0x0100 <= semantics::stack_address(s) <= 0x01FF,
{
}

/// LAX reads its operand once, and the accumulator and X both hold the
/// byte read, whatever the device behind the bus does on a load.
pub proof fn lemma_lax_reads_once<B: Bus>(r: RegisterFile, bus: B::V, mode: AddressingMode)
    ensures
        ({
            let (m, after) = mode.operand_of::<B>(r, bus);
            let (loaded, bus_after) = semantics::lax::<B>(r, bus, mode);
            loaded.a == m && loaded.x == m && bus_after == after
        }),
{
}

/// The undocumented instructions that change memory leave the bus as
/// their first half left it: the second half works on the value written
/// and loads nothing.
pub proof fn lemma_undocumented_read_once<B: Bus>(r: RegisterFile, bus: B::V, mode: AddressingMode)
    ensures
        semantics::dcp::<B>(r, bus, mode).1 == semantics::dec::<B>(r, bus, mode).1,
        semantics::isb::<B>(r, bus, mode).1 == semantics::inc::<B>(r, bus, mode).1,
        semantics::rla::<B>(r, bus, mode).1 == semantics::rol::<B>(r, bus, mode).1,
        semantics::rra::<B>(r, bus, mode).1 == semantics::ror::<B>(r, bus, mode).1,
        semantics::slo::<B>(r, bus, mode).1 == semantics::asl::<B>(r, bus, mode).1,
        semantics::sre::<B>(r, bus, mode).1 == semantics::lsr::<B>(r, bus, mode).1,
{
}

/// Where JMP through a pointer finds the high byte of its target.
pub open spec fn indirect_high_address(pointer: u16) -> u16 {
    if pointer % 256 == 255 {
        (pointer - 255) as u16
    } else {
        (pointer + 1) as u16
    }
}

/// JMP through a pointer reads the low byte of its target at the pointer
/// and the high byte one further on, except where the pointer is the last
/// byte of a page: there the high byte is read from the first byte of the
/// same page, not of the next.
pub proof fn lemma_jmp_indirect<B: Bus>(r: RegisterFile, bus: B::V, pointer: u16)
    ensures
        ({
            let low = B::read(bus, pointer);
            let after_low = B::after_read(bus, pointer);
            let high = B::read(after_low, indirect_high_address(pointer));
            let after_high = B::after_read(after_low, indirect_high_address(pointer));
            jmp::<B>(r, bus, AddressingMode::Indirect(Address(pointer))) == (
                RegisterFile { pc: le_word(low, high), ..r },
                after_high,
            )
        }),
{
}

/// Writing through an addressing mode and reading back through it gives
/// the value written, in plain memory and with the accumulator, as long as
/// the write did not change where the mode points: an indirect mode may
/// point at its own pointer.
pub proof fn lemma_store_load_round_trip(
    mode: AddressingMode,
    r: RegisterFile,
    memory: Seq<u8>,
    value: u8,
)
    requires
        memory.len() == 0x1_0000,
        mode.can_store(),
        ({
            let (r1, stored) = mode.after_store::<FlatMemory>(r, memory, value);
            mode.address_of::<FlatMemory>(r1, stored).0 == mode.address_of::<FlatMemory>(
                r,
                memory,
            ).0
        }),
    ensures
        ({
            let (r1, stored) = mode.after_store::<FlatMemory>(r, memory, value);
            mode.operand_of::<FlatMemory>(r1, stored).0 == value
        }),
{
}

/// Modes that do not go through a pointer in memory always point where
/// they pointed before a write through them.
pub proof fn lemma_direct_modes_stay(mode: AddressingMode, r: RegisterFile, memory: Seq<u8>, value: u8)
    requires
        mode.can_store(),
        !(mode is Indirect || mode is IndexedIndirect || mode is IndirectIndexed),
    ensures
        ({
            let (r1, stored) = mode.after_store::<FlatMemory>(r, memory, value);
            mode.address_of::<FlatMemory>(r1, stored).0 == mode.address_of::<FlatMemory>(
                r,
                memory,
            ).0
        }),
{
}

/// The stack is last in, first out: in plain memory, after two pushes the
/// first pull gives the second value pushed and the second pull the first,
/// and the stack pointer is back where it was, wherever it started: the
/// stack pointer wraps within the stack page.
pub proof fn lemma_stack_lifo(r: RegisterFile, memory: Seq<u8>, first: u8, second: u8)
    requires
        memory.len() == 0x1_0000,
    ensures
        ({
            let (r1, m1) = pushed::<FlatMemory>(r, memory, first);
            let (r2, m2) = pushed::<FlatMemory>(r1, m1, second);
            let (pull1, r3, m3) = pulled::<FlatMemory>(r2, m2);
            let (pull2, r4, m4) = pulled::<FlatMemory>(r3, m3);
            pull1 == second && pull2 == first && r4 == r
        }),
{
}

/// PHP followed by PLP restores the status register, in plain memory:
/// every flag is as it was (the six bits of 0xCF), but for UNUSED, which
/// is set, and BREAK, which is clear, whatever they were (of the two bits
/// of 0x30 only UNUSED is set); and the stack pointer is back where it
/// was. A status that was live is therefore restored as it was.
pub proof fn lemma_php_plp(r: RegisterFile, memory: Seq<u8>)
    requires
        memory.len() == 0x1_0000,
    ensures
        ({
            let (r1, m1) = php::<FlatMemory>(r, memory);
            let (r2, m2) = pulled_flags::<FlatMemory>(r1, m1);
            &&& r2 == RegisterFile { p: as_live_status(r.p), ..r }
            &&& r2.p & 0xCF == r.p & 0xCF
            &&& r2.p & 0x30 == 0x20
            &&& is_live_status(r2.p)
            &&& is_live_status(r.p) ==> r2 == r
        }),
{
    let pushed_byte = with_flag(with_flag(r.p, UNUSED, true), BREAK, true);
    lemma_php_plp_bits(r.p);
    lemma_flag_bits(r.p, 0, 0, true);
}

/// Taking the byte that PHP pushes into the status register gives the
/// status that PHP started from, made live.
proof fn lemma_php_plp_bits(p: u8)
    by (bit_vector)
    ensures
        as_live_status(with_flag(with_flag(p, UNUSED, true), BREAK, true)) == as_live_status(p),
        as_live_status(p) & 0xCF == p & 0xCF,
        as_live_status(p) & 0x30 == 0x20,
{
}

/// The opcode that a step executes: the byte at the program counter, after
/// a waiting interrupt request was served.
pub open spec fn opcode_at_step<B: Bus>(cpu: CpuState, bus: B::V) -> u8 {
    let (served, after_served) = pending_served::<B>(cpu, bus);
    B::read(after_served, served.registers.pc)
}

/// A step that is not fatal gives the number of cycles that the table has
/// for its opcode.
pub proof fn lemma_step_cycles<B: Bus>(cpu: CpuState, bus: B::V)
    requires
        stepped::<B>(cpu, bus).0 is Ok,
    ensures
        stepped::<B>(cpu, bus).0 == Ok::<u8, Fatal>(CYCLE_TABLE[opcode_at_step::<B>(cpu, bus) as int]),
{
    reveal(stepped);
}

/// After the clock cycle on which an instruction is carried out, the
/// cycles that remain, plus the one that passed, are the cycles that the
/// table has for the opcode.
pub proof fn lemma_tick_cycles<B: Bus>(cpu: CpuState, bus: B::V)
    requires
        cpu.cycles_remaining == 0,
        ticked::<B>(cpu, bus).0 is Ok,
    ensures
        ticked::<B>(cpu, bus).1.cycles_remaining + 1 == CYCLE_TABLE[opcode_at_step::<B>(
            cpu,
            bus,
        ) as int],
{
    lemma_step_cycles::<B>(cpu, bus);
    crate::cpu::instruction::lemma_cycle_bounds(opcode_at_step::<B>(cpu, bus));
}

} // verus!
