//! Instructions: the operations of the CPU, the table that maps each opcode
//! to an operation and an addressing mode, and the decoder that reads one
//! instruction from the instruction stream.

use super::addressing::AddressingMode;
use crate::mem::address::{le_word, wrap16, Address};
use crate::mem::bus::{read_byte_at, Bus};
use vstd::prelude::*;

verus! {

/// What an instruction does, apart from where it finds its operand.
#[derive(Clone, Copy, Debug, PartialEq, Eq, Structural)]
pub enum Operation {
    /// Add with carry.
    Adc,
    /// Bitwise AND with the accumulator.
    And,
    /// Arithmetic shift left.
    Asl,
    /// Branch if carry clear.
    Bcc,
    /// Branch if carry set.
    Bcs,
    /// Branch if equal (ZERO set).
    Beq,
    /// Bit test.
    Bit,
    /// Branch if minus (NEGATIVE set).
    Bmi,
    /// Branch if not equal (ZERO clear).
    Bne,
    /// Branch if plus (NEGATIVE clear).
    Bpl,
    /// Software interrupt.
    Brk,
    /// Branch if overflow clear.
    Bvc,
    /// Branch if overflow set.
    Bvs,
    /// Clear CARRY.
    Clc,
    /// Clear DECIMAL.
    Cld,
    /// Clear INTERRUPT_DISABLE.
    Cli,
    /// Clear OVERFLOW.
    Clv,
    /// Compare with the accumulator.
    Cmp,
    /// Compare with X.
    Cpx,
    /// Compare with Y.
    Cpy,
    /// Decrement memory.
    Dec,
    /// Decrement X.
    Dex,
    /// Decrement Y.
    Dey,
    /// Bitwise exclusive OR with the accumulator.
    Eor,
    /// Increment memory.
    Inc,
    /// Increment X.
    Inx,
    /// Increment Y.
    Iny,
    /// Jump.
    Jmp,
    /// Jump to subroutine.
    Jsr,
    /// Load the accumulator.
    Lda,
    /// Load X.
    Ldx,
    /// Load Y.
    Ldy,
    /// Logical shift right.
    Lsr,
    /// No operation. With an operand, the operand is read and dropped.
    Nop,
    /// Bitwise OR with the accumulator.
    Ora,
    /// Push the accumulator.
    Pha,
    /// Push the status register.
    Php,
    /// Pull the accumulator.
    Pla,
    /// Pull the status register.
    Plp,
    /// Rotate left through CARRY.
    Rol,
    /// Rotate right through CARRY.
    Ror,
    /// Return from interrupt.
    Rti,
    /// Return from subroutine.
    Rts,
    /// Subtract with borrow.
    Sbc,
    /// Set CARRY.
    Sec,
    /// Set DECIMAL.
    Sed,
    /// Set INTERRUPT_DISABLE.
    Sei,
    /// Store the accumulator.
    Sta,
    /// Store X.
    Stx,
    /// Store Y.
    Sty,
    /// Transfer the accumulator to X.
    Tax,
    /// Transfer the accumulator to Y.
    Tay,
    /// Transfer the stack pointer to X.
    Tsx,
    /// Transfer X to the accumulator.
    Txa,
    /// Transfer X to the stack pointer.
    Txs,
    /// Transfer Y to the accumulator.
    Tya,
    /// Undocumented: decrement memory, then compare with the accumulator.
    Dcp,
    /// Undocumented: increment memory, then subtract it from the accumulator.
    Isb,
    /// Undocumented: load the accumulator and X.
    Lax,
    /// Undocumented: rotate memory left, then AND it with the accumulator.
    Rla,
    /// Undocumented: rotate memory right, then add it to the accumulator.
    Rra,
    /// Undocumented: store the AND of the accumulator and X.
    Sax,
    /// Undocumented: shift memory left, then OR it with the accumulator.
    Slo,
    /// Undocumented: shift memory right, then exclusive-OR it with the accumulator.
    Sre,
    /// Undocumented: halt the CPU until it is reset.
    Stp,
}

/// The shape of an addressing mode: which of the thirteen modes it is,
/// without the operand bytes.
#[derive(Clone, Copy, Debug, PartialEq, Eq, Structural)]
pub enum ModeKind {
    /// No operand.
    Implicit,
    /// The accumulator is the operand.
    Accumulator,
    /// One operand byte: the operand itself.
    Immediate,
    /// One operand byte: a zero-page address.
    ZeroPage,
    /// One operand byte: a zero-page address, indexed by X.
    ZeroPageX,
    /// One operand byte: a zero-page address, indexed by Y.
    ZeroPageY,
    /// One operand byte: a signed branch offset.
    Relative,
    /// Two operand bytes: an address.
    Absolute,
    /// Two operand bytes: an address, indexed by X.
    AbsoluteX,
    /// Two operand bytes: an address, indexed by Y.
    AbsoluteY,
    /// Two operand bytes: the address of a pointer.
    Indirect,
    /// One operand byte: a zero-page table of pointers, indexed by X.
    IndexedIndirect,
    /// One operand byte: a zero-page pointer, whose target is indexed by Y.
    IndirectIndexed,
}

/// One decoded instruction.
#[derive(Clone, Copy, Debug, PartialEq, Eq, Structural)]
pub struct Instruction {
    /// What the instruction does.
    pub operation: Operation,
    /// Where it finds its operand.
    pub mode: AddressingMode,
}

/// A condition from which the CPU cannot go on. Only a reset recovers.
#[derive(Clone, Copy, Debug, PartialEq, Eq, Structural)]
pub enum Fatal {
    /// The opcode found at `pc` is one of the undocumented opcodes whose
    /// effect is unstable.
    IllegalOpcode { pc: Address, opcode: u8 },
    /// The halting instruction was executed.
    Halted,
    /// The instruction that started at `pc` left the program counter where
    /// it was: the program is stuck in a loop on itself.
    InfiniteLoop { pc: Address },
}

/// The number of clock cycles that the instruction with each opcode takes.
pub const CYCLE_TABLE: [u8; 256] = [
    7, 6, 2, 8, 3, 3, 5, 5, 3, 2, 2, 2, 4, 4, 6, 6,
    2, 5, 2, 8, 4, 4, 6, 6, 2, 4, 2, 7, 4, 4, 7, 7,
    6, 6, 2, 8, 3, 3, 5, 5, 4, 2, 2, 2, 4, 4, 6, 6,
    2, 5, 2, 8, 4, 4, 6, 6, 2, 4, 2, 7, 4, 4, 7, 7,
    6, 6, 2, 8, 3, 3, 5, 5, 3, 2, 2, 2, 3, 4, 6, 6,
    2, 5, 2, 8, 4, 4, 6, 6, 2, 4, 2, 7, 4, 4, 7, 7,
    6, 6, 2, 8, 3, 3, 5, 5, 4, 2, 2, 2, 5, 4, 6, 6,
    2, 5, 2, 8, 4, 4, 6, 6, 2, 4, 2, 7, 4, 4, 7, 7,
    2, 6, 2, 6, 3, 3, 3, 3, 2, 2, 2, 2, 4, 4, 4, 4,
    2, 6, 2, 6, 4, 4, 4, 4, 2, 5, 2, 5, 5, 5, 5, 5,
    2, 6, 2, 6, 3, 3, 3, 3, 2, 2, 2, 2, 4, 4, 4, 4,
    2, 5, 2, 5, 4, 4, 4, 4, 2, 4, 2, 4, 4, 4, 4, 4,
    2, 6, 2, 8, 3, 3, 5, 5, 2, 2, 2, 2, 4, 4, 6, 6,
    2, 5, 2, 8, 4, 4, 6, 6, 2, 4, 2, 7, 4, 4, 7, 7,
    2, 6, 3, 8, 3, 3, 5, 5, 2, 2, 2, 2, 4, 4, 6, 6,
    2, 5, 2, 8, 4, 4, 6, 6, 2, 4, 2, 7, 4, 4, 7, 7,
];

/// The operation and the addressing mode that each opcode stands for, or
/// `None` for the thirteen unstable undocumented opcodes.
pub open spec fn opcode_entry(opcode: u8) -> Option<(Operation, ModeKind)> {
    match opcode {
        0x00 => Some((Operation::Brk, ModeKind::Implicit)),
        0x01 => Some((Operation::Ora, ModeKind::IndexedIndirect)),
        0x02 => Some((Operation::Stp, ModeKind::Implicit)),
        0x03 => Some((Operation::Slo, ModeKind::IndexedIndirect)),
        0x04 => Some((Operation::Nop, ModeKind::ZeroPage)),
        0x05 => Some((Operation::Ora, ModeKind::ZeroPage)),
        0x06 => Some((Operation::Asl, ModeKind::ZeroPage)),
        0x07 => Some((Operation::Slo, ModeKind::ZeroPage)),
        0x08 => Some((Operation::Php, ModeKind::Implicit)),
        0x09 => Some((Operation::Ora, ModeKind::Immediate)),
        0x0A => Some((Operation::Asl, ModeKind::Accumulator)),
        0x0B => None,
        0x0C => Some((Operation::Nop, ModeKind::Absolute)),
        0x0D => Some((Operation::Ora, ModeKind::Absolute)),
        0x0E => Some((Operation::Asl, ModeKind::Absolute)),
        0x0F => Some((Operation::Slo, ModeKind::Absolute)),
        0x10 => Some((Operation::Bpl, ModeKind::Relative)),
        0x11 => Some((Operation::Ora, ModeKind::IndirectIndexed)),
        0x12 => Some((Operation::Stp, ModeKind::Implicit)),
        0x13 => Some((Operation::Slo, ModeKind::IndirectIndexed)),
        0x14 => Some((Operation::Nop, ModeKind::ZeroPageX)),
        0x15 => Some((Operation::Ora, ModeKind::ZeroPageX)),
        0x16 => Some((Operation::Asl, ModeKind::ZeroPageX)),
        0x17 => Some((Operation::Slo, ModeKind::ZeroPageX)),
        0x18 => Some((Operation::Clc, ModeKind::Implicit)),
        0x19 => Some((Operation::Ora, ModeKind::AbsoluteY)),
        0x1A => Some((Operation::Nop, ModeKind::Implicit)),
        0x1B => Some((Operation::Slo, ModeKind::AbsoluteY)),
        0x1C => Some((Operation::Nop, ModeKind::AbsoluteX)),
        0x1D => Some((Operation::Ora, ModeKind::AbsoluteX)),
        0x1E => Some((Operation::Asl, ModeKind::AbsoluteX)),
        0x1F => Some((Operation::Slo, ModeKind::AbsoluteX)),
        0x20 => Some((Operation::Jsr, ModeKind::Absolute)),
        0x21 => Some((Operation::And, ModeKind::IndexedIndirect)),
        0x22 => Some((Operation::Stp, ModeKind::Implicit)),
        0x23 => Some((Operation::Rla, ModeKind::IndexedIndirect)),
        0x24 => Some((Operation::Bit, ModeKind::ZeroPage)),
        0x25 => Some((Operation::And, ModeKind::ZeroPage)),
        0x26 => Some((Operation::Rol, ModeKind::ZeroPage)),
        0x27 => Some((Operation::Rla, ModeKind::ZeroPage)),
        0x28 => Some((Operation::Plp, ModeKind::Implicit)),
        0x29 => Some((Operation::And, ModeKind::Immediate)),
        0x2A => Some((Operation::Rol, ModeKind::Accumulator)),
        0x2B => None,
        0x2C => Some((Operation::Bit, ModeKind::Absolute)),
        0x2D => Some((Operation::And, ModeKind::Absolute)),
        0x2E => Some((Operation::Rol, ModeKind::Absolute)),
        0x2F => Some((Operation::Rla, ModeKind::Absolute)),
        0x30 => Some((Operation::Bmi, ModeKind::Relative)),
        0x31 => Some((Operation::And, ModeKind::IndirectIndexed)),
        0x32 => Some((Operation::Stp, ModeKind::Implicit)),
        0x33 => Some((Operation::Rla, ModeKind::IndirectIndexed)),
        0x34 => Some((Operation::Nop, ModeKind::ZeroPageX)),
        0x35 => Some((Operation::And, ModeKind::ZeroPageX)),
        0x36 => Some((Operation::Rol, ModeKind::ZeroPageX)),
        0x37 => Some((Operation::Rla, ModeKind::ZeroPageX)),
        0x38 => Some((Operation::Sec, ModeKind::Implicit)),
        0x39 => Some((Operation::And, ModeKind::AbsoluteY)),
        0x3A => Some((Operation::Nop, ModeKind::Implicit)),
        0x3B => Some((Operation::Rla, ModeKind::AbsoluteY)),
        0x3C => Some((Operation::Nop, ModeKind::AbsoluteX)),
        0x3D => Some((Operation::And, ModeKind::AbsoluteX)),
        0x3E => Some((Operation::Rol, ModeKind::AbsoluteX)),
        0x3F => Some((Operation::Rla, ModeKind::AbsoluteX)),
        0x40 => Some((Operation::Rti, ModeKind::Implicit)),
        0x41 => Some((Operation::Eor, ModeKind::IndexedIndirect)),
        0x42 => Some((Operation::Stp, ModeKind::Implicit)),
        0x43 => Some((Operation::Sre, ModeKind::IndexedIndirect)),
        0x44 => Some((Operation::Nop, ModeKind::ZeroPage)),
        0x45 => Some((Operation::Eor, ModeKind::ZeroPage)),
        0x46 => Some((Operation::Lsr, ModeKind::ZeroPage)),
        0x47 => Some((Operation::Sre, ModeKind::ZeroPage)),
        0x48 => Some((Operation::Pha, ModeKind::Implicit)),
        0x49 => Some((Operation::Eor, ModeKind::Immediate)),
        0x4A => Some((Operation::Lsr, ModeKind::Accumulator)),
        0x4B => None,
        0x4C => Some((Operation::Jmp, ModeKind::Absolute)),
        0x4D => Some((Operation::Eor, ModeKind::Absolute)),
        0x4E => Some((Operation::Lsr, ModeKind::Absolute)),
        0x4F => Some((Operation::Sre, ModeKind::Absolute)),
        0x50 => Some((Operation::Bvc, ModeKind::Relative)),
        0x51 => Some((Operation::Eor, ModeKind::IndirectIndexed)),
        0x52 => Some((Operation::Stp, ModeKind::Implicit)),
        0x53 => Some((Operation::Sre, ModeKind::IndirectIndexed)),
        0x54 => Some((Operation::Nop, ModeKind::ZeroPageX)),
        0x55 => Some((Operation::Eor, ModeKind::ZeroPageX)),
        0x56 => Some((Operation::Lsr, ModeKind::ZeroPageX)),
        0x57 => Some((Operation::Sre, ModeKind::ZeroPageX)),
        0x58 => Some((Operation::Cli, ModeKind::Implicit)),
        0x59 => Some((Operation::Eor, ModeKind::AbsoluteY)),
        0x5A => Some((Operation::Nop, ModeKind::Implicit)),
        0x5B => Some((Operation::Sre, ModeKind::AbsoluteY)),
        0x5C => Some((Operation::Nop, ModeKind::AbsoluteX)),
        0x5D => Some((Operation::Eor, ModeKind::AbsoluteX)),
        0x5E => Some((Operation::Lsr, ModeKind::AbsoluteX)),
        0x5F => Some((Operation::Sre, ModeKind::AbsoluteX)),
        0x60 => Some((Operation::Rts, ModeKind::Implicit)),
        0x61 => Some((Operation::Adc, ModeKind::IndexedIndirect)),
        0x62 => Some((Operation::Stp, ModeKind::Implicit)),
        0x63 => Some((Operation::Rra, ModeKind::IndexedIndirect)),
        0x64 => Some((Operation::Nop, ModeKind::ZeroPage)),
        0x65 => Some((Operation::Adc, ModeKind::ZeroPage)),
        0x66 => Some((Operation::Ror, ModeKind::ZeroPage)),
        0x67 => Some((Operation::Rra, ModeKind::ZeroPage)),
        0x68 => Some((Operation::Pla, ModeKind::Implicit)),
        0x69 => Some((Operation::Adc, ModeKind::Immediate)),
        0x6A => Some((Operation::Ror, ModeKind::Accumulator)),
        0x6B => None,
        0x6C => Some((Operation::Jmp, ModeKind::Indirect)),
        0x6D => Some((Operation::Adc, ModeKind::Absolute)),
        0x6E => Some((Operation::Ror, ModeKind::Absolute)),
        0x6F => Some((Operation::Rra, ModeKind::Absolute)),
        0x70 => Some((Operation::Bvs, ModeKind::Relative)),
        0x71 => Some((Operation::Adc, ModeKind::IndirectIndexed)),
        0x72 => Some((Operation::Stp, ModeKind::Implicit)),
        0x73 => Some((Operation::Rra, ModeKind::IndirectIndexed)),
        0x74 => Some((Operation::Nop, ModeKind::ZeroPageX)),
        0x75 => Some((Operation::Adc, ModeKind::ZeroPageX)),
        0x76 => Some((Operation::Ror, ModeKind::ZeroPageX)),
        0x77 => Some((Operation::Rra, ModeKind::ZeroPageX)),
        0x78 => Some((Operation::Sei, ModeKind::Implicit)),
        0x79 => Some((Operation::Adc, ModeKind::AbsoluteY)),
        0x7A => Some((Operation::Nop, ModeKind::Implicit)),
        0x7B => Some((Operation::Rra, ModeKind::AbsoluteY)),
        0x7C => Some((Operation::Nop, ModeKind::AbsoluteX)),
        0x7D => Some((Operation::Adc, ModeKind::AbsoluteX)),
        0x7E => Some((Operation::Ror, ModeKind::AbsoluteX)),
        0x7F => Some((Operation::Rra, ModeKind::AbsoluteX)),
        0x80 => Some((Operation::Nop, ModeKind::Immediate)),
        0x81 => Some((Operation::Sta, ModeKind::IndexedIndirect)),
        0x82 => Some((Operation::Nop, ModeKind::Immediate)),
        0x83 => Some((Operation::Sax, ModeKind::IndexedIndirect)),
        0x84 => Some((Operation::Sty, ModeKind::ZeroPage)),
        0x85 => Some((Operation::Sta, ModeKind::ZeroPage)),
        0x86 => Some((Operation::Stx, ModeKind::ZeroPage)),
        0x87 => Some((Operation::Sax, ModeKind::ZeroPage)),
        0x88 => Some((Operation::Dey, ModeKind::Implicit)),
        0x89 => Some((Operation::Nop, ModeKind::Immediate)),
        0x8A => Some((Operation::Txa, ModeKind::Implicit)),
        0x8B => None,
        0x8C => Some((Operation::Sty, ModeKind::Absolute)),
        0x8D => Some((Operation::Sta, ModeKind::Absolute)),
        0x8E => Some((Operation::Stx, ModeKind::Absolute)),
        0x8F => Some((Operation::Sax, ModeKind::Absolute)),
        0x90 => Some((Operation::Bcc, ModeKind::Relative)),
        0x91 => Some((Operation::Sta, ModeKind::IndirectIndexed)),
        0x92 => Some((Operation::Stp, ModeKind::Implicit)),
        0x93 => None,
        0x94 => Some((Operation::Sty, ModeKind::ZeroPageX)),
        0x95 => Some((Operation::Sta, ModeKind::ZeroPageX)),
        0x96 => Some((Operation::Stx, ModeKind::ZeroPageY)),
        0x97 => Some((Operation::Sax, ModeKind::ZeroPageY)),
        0x98 => Some((Operation::Tya, ModeKind::Implicit)),
        0x99 => Some((Operation::Sta, ModeKind::AbsoluteY)),
        0x9A => Some((Operation::Txs, ModeKind::Implicit)),
        0x9B => None,
        0x9C => None,
        0x9D => Some((Operation::Sta, ModeKind::AbsoluteX)),
        0x9E => None,
        0x9F => None,
        0xA0 => Some((Operation::Ldy, ModeKind::Immediate)),
        0xA1 => Some((Operation::Lda, ModeKind::IndexedIndirect)),
        0xA2 => Some((Operation::Ldx, ModeKind::Immediate)),
        0xA3 => Some((Operation::Lax, ModeKind::IndexedIndirect)),
        0xA4 => Some((Operation::Ldy, ModeKind::ZeroPage)),
        0xA5 => Some((Operation::Lda, ModeKind::ZeroPage)),
        0xA6 => Some((Operation::Ldx, ModeKind::ZeroPage)),
        0xA7 => Some((Operation::Lax, ModeKind::ZeroPage)),
        0xA8 => Some((Operation::Tay, ModeKind::Implicit)),
        0xA9 => Some((Operation::Lda, ModeKind::Immediate)),
        0xAA => Some((Operation::Tax, ModeKind::Implicit)),
        0xAB => None,
        0xAC => Some((Operation::Ldy, ModeKind::Absolute)),
        0xAD => Some((Operation::Lda, ModeKind::Absolute)),
        0xAE => Some((Operation::Ldx, ModeKind::Absolute)),
        0xAF => Some((Operation::Lax, ModeKind::Absolute)),
        0xB0 => Some((Operation::Bcs, ModeKind::Relative)),
        0xB1 => Some((Operation::Lda, ModeKind::IndirectIndexed)),
        0xB2 => Some((Operation::Stp, ModeKind::Implicit)),
        0xB3 => Some((Operation::Lax, ModeKind::IndirectIndexed)),
        0xB4 => Some((Operation::Ldy, ModeKind::ZeroPageX)),
        0xB5 => Some((Operation::Lda, ModeKind::ZeroPageX)),
        0xB6 => Some((Operation::Ldx, ModeKind::ZeroPageY)),
        0xB7 => Some((Operation::Lax, ModeKind::ZeroPageY)),
        0xB8 => Some((Operation::Clv, ModeKind::Implicit)),
        0xB9 => Some((Operation::Lda, ModeKind::AbsoluteY)),
        0xBA => Some((Operation::Tsx, ModeKind::Implicit)),
        0xBB => None,
        0xBC => Some((Operation::Ldy, ModeKind::AbsoluteX)),
        0xBD => Some((Operation::Lda, ModeKind::AbsoluteX)),
        0xBE => Some((Operation::Ldx, ModeKind::AbsoluteY)),
        0xBF => Some((Operation::Lax, ModeKind::AbsoluteY)),
        0xC0 => Some((Operation::Cpy, ModeKind::Immediate)),
        0xC1 => Some((Operation::Cmp, ModeKind::IndexedIndirect)),
        0xC2 => Some((Operation::Nop, ModeKind::Immediate)),
        0xC3 => Some((Operation::Dcp, ModeKind::IndexedIndirect)),
        0xC4 => Some((Operation::Cpy, ModeKind::ZeroPage)),
        0xC5 => Some((Operation::Cmp, ModeKind::ZeroPage)),
        0xC6 => Some((Operation::Dec, ModeKind::ZeroPage)),
        0xC7 => Some((Operation::Dcp, ModeKind::ZeroPage)),
        0xC8 => Some((Operation::Iny, ModeKind::Implicit)),
        0xC9 => Some((Operation::Cmp, ModeKind::Immediate)),
        0xCA => Some((Operation::Dex, ModeKind::Implicit)),
        0xCB => None,
        0xCC => Some((Operation::Cpy, ModeKind::Absolute)),
        0xCD => Some((Operation::Cmp, ModeKind::Absolute)),
        0xCE => Some((Operation::Dec, ModeKind::Absolute)),
        0xCF => Some((Operation::Dcp, ModeKind::Absolute)),
        0xD0 => Some((Operation::Bne, ModeKind::Relative)),
        0xD1 => Some((Operation::Cmp, ModeKind::IndirectIndexed)),
        0xD2 => Some((Operation::Stp, ModeKind::Implicit)),
        0xD3 => Some((Operation::Dcp, ModeKind::IndirectIndexed)),
        0xD4 => Some((Operation::Nop, ModeKind::ZeroPageX)),
        0xD5 => Some((Operation::Cmp, ModeKind::ZeroPageX)),
        0xD6 => Some((Operation::Dec, ModeKind::ZeroPageX)),
        0xD7 => Some((Operation::Dcp, ModeKind::ZeroPageX)),
        0xD8 => Some((Operation::Cld, ModeKind::Implicit)),
        0xD9 => Some((Operation::Cmp, ModeKind::AbsoluteY)),
        0xDA => Some((Operation::Nop, ModeKind::Implicit)),
        0xDB => Some((Operation::Dcp, ModeKind::AbsoluteY)),
        0xDC => Some((Operation::Nop, ModeKind::AbsoluteX)),
        0xDD => Some((Operation::Cmp, ModeKind::AbsoluteX)),
        0xDE => Some((Operation::Dec, ModeKind::AbsoluteX)),
        0xDF => Some((Operation::Dcp, ModeKind::AbsoluteX)),
        0xE0 => Some((Operation::Cpx, ModeKind::Immediate)),
        0xE1 => Some((Operation::Sbc, ModeKind::IndexedIndirect)),
        0xE2 => Some((Operation::Nop, ModeKind::Immediate)),
        0xE3 => Some((Operation::Isb, ModeKind::IndexedIndirect)),
        0xE4 => Some((Operation::Cpx, ModeKind::ZeroPage)),
        0xE5 => Some((Operation::Sbc, ModeKind::ZeroPage)),
        0xE6 => Some((Operation::Inc, ModeKind::ZeroPage)),
        0xE7 => Some((Operation::Isb, ModeKind::ZeroPage)),
        0xE8 => Some((Operation::Inx, ModeKind::Implicit)),
        0xE9 => Some((Operation::Sbc, ModeKind::Immediate)),
        0xEA => Some((Operation::Nop, ModeKind::Implicit)),
        0xEB => Some((Operation::Sbc, ModeKind::Immediate)),
        0xEC => Some((Operation::Cpx, ModeKind::Absolute)),
        0xED => Some((Operation::Sbc, ModeKind::Absolute)),
        0xEE => Some((Operation::Inc, ModeKind::Absolute)),
        0xEF => Some((Operation::Isb, ModeKind::Absolute)),
        0xF0 => Some((Operation::Beq, ModeKind::Relative)),
        0xF1 => Some((Operation::Sbc, ModeKind::IndirectIndexed)),
        0xF2 => Some((Operation::Stp, ModeKind::Implicit)),
        0xF3 => Some((Operation::Isb, ModeKind::IndirectIndexed)),
        0xF4 => Some((Operation::Nop, ModeKind::ZeroPageX)),
        0xF5 => Some((Operation::Sbc, ModeKind::ZeroPageX)),
        0xF6 => Some((Operation::Inc, ModeKind::ZeroPageX)),
        0xF7 => Some((Operation::Isb, ModeKind::ZeroPageX)),
        0xF8 => Some((Operation::Sed, ModeKind::Implicit)),
        0xF9 => Some((Operation::Sbc, ModeKind::AbsoluteY)),
        0xFA => Some((Operation::Nop, ModeKind::Implicit)),
        0xFB => Some((Operation::Isb, ModeKind::AbsoluteY)),
        0xFC => Some((Operation::Nop, ModeKind::AbsoluteX)),
        0xFD => Some((Operation::Sbc, ModeKind::AbsoluteX)),
        0xFE => Some((Operation::Inc, ModeKind::AbsoluteX)),
        0xFF => Some((Operation::Isb, ModeKind::AbsoluteX)),
    }
}

impl ModeKind {
    /// The number of operand bytes that follow the opcode.
    pub open spec fn operand_len(self) -> nat {
        match self {
            ModeKind::Implicit | ModeKind::Accumulator => 0,
            ModeKind::Absolute | ModeKind::AbsoluteX | ModeKind::AbsoluteY | ModeKind::Indirect => 2,
            _ => 1,
        }
    }

    /// The addressing mode of this shape whose operand bytes are `first`
    /// and, where there are two, `second`.
    pub open spec fn with_operand(self, first: u8, second: u8) -> AddressingMode {
        match self {
            ModeKind::Implicit => AddressingMode::Implicit,
            ModeKind::Accumulator => AddressingMode::Accumulator,
            ModeKind::Immediate => AddressingMode::Immediate(first),
            ModeKind::ZeroPage => AddressingMode::ZeroPage(first),
            ModeKind::ZeroPageX => AddressingMode::ZeroPageX(first),
            ModeKind::ZeroPageY => AddressingMode::ZeroPageY(first),
            ModeKind::Relative => AddressingMode::Relative(signed_byte(first)),
            ModeKind::Absolute => AddressingMode::Absolute(Address(le_word(first, second))),
            ModeKind::AbsoluteX => AddressingMode::AbsoluteX(Address(le_word(first, second))),
            ModeKind::AbsoluteY => AddressingMode::AbsoluteY(Address(le_word(first, second))),
            ModeKind::Indirect => AddressingMode::Indirect(Address(le_word(first, second))),
            ModeKind::IndexedIndirect => AddressingMode::IndexedIndirect(first),
            ModeKind::IndirectIndexed => AddressingMode::IndirectIndexed(first),
        }
    }
}

impl AddressingMode {
    /// Which of the thirteen modes this is.
    pub open spec fn kind(self) -> ModeKind {
        match self {
            AddressingMode::Implicit => ModeKind::Implicit,
            AddressingMode::Accumulator => ModeKind::Accumulator,
            AddressingMode::Immediate(_) => ModeKind::Immediate,
            AddressingMode::ZeroPage(_) => ModeKind::ZeroPage,
            AddressingMode::ZeroPageX(_) => ModeKind::ZeroPageX,
            AddressingMode::ZeroPageY(_) => ModeKind::ZeroPageY,
            AddressingMode::Relative(_) => ModeKind::Relative,
            AddressingMode::Absolute(_) => ModeKind::Absolute,
            AddressingMode::AbsoluteX(_) => ModeKind::AbsoluteX,
            AddressingMode::AbsoluteY(_) => ModeKind::AbsoluteY,
            AddressingMode::Indirect(_) => ModeKind::Indirect,
            AddressingMode::IndexedIndirect(_) => ModeKind::IndexedIndirect,
            AddressingMode::IndirectIndexed(_) => ModeKind::IndirectIndexed,
        }
    }
}

/// The byte `byte` read as a two's-complement number.
pub open spec fn signed_byte(byte: u8) -> i8 {
    if byte < 0x80 {
        byte as i8
    } else {
        (byte - 0x100) as i8
    }
}

impl Operation {
    /// Whether the operation can be carried out on an operand that is named
    /// in the given way: one that reads or writes its operand needs an
    /// operand that can be read or written, and one that goes to its operand
    /// needs one that has an address.
    pub open spec fn accepts(self, mode: AddressingMode) -> bool {
        match self {
            Operation::Adc | Operation::And | Operation::Bit | Operation::Cmp | Operation::Cpx
            | Operation::Cpy | Operation::Eor | Operation::Lda | Operation::Ldx
            | Operation::Ldy | Operation::Ora | Operation::Sbc | Operation::Lax => mode.can_load(),
            Operation::Asl | Operation::Lsr | Operation::Rol | Operation::Ror | Operation::Inc
            | Operation::Dec | Operation::Dcp | Operation::Isb | Operation::Rla
            | Operation::Rra | Operation::Slo | Operation::Sre | Operation::Sta
            | Operation::Stx | Operation::Sty | Operation::Sax => mode.can_store(),
            Operation::Bcc | Operation::Bcs | Operation::Beq | Operation::Bmi | Operation::Bne
            | Operation::Bpl | Operation::Bvc | Operation::Bvs | Operation::Jmp
            | Operation::Jsr => mode.has_address(),
            _ => true,
        }
    }
}

impl Instruction {
    /// Whether the operation can be carried out on the operand.
    pub open spec fn well_formed(self) -> bool {
        self.operation.accepts(self.mode)
    }
}

/// What reading one instruction at `pc` gives, together with the program
/// counter and the bus afterwards: the opcode is read first and then, in
/// order, as many operand bytes as its addressing mode takes; the program
/// counter goes past each byte read. An unstable opcode is fatal, and no
/// operand is read for it.
pub open spec fn fetched<B: Bus>(bus: B::V, pc: u16) -> (Result<(Instruction, u8), Fatal>, u16, B::V) {
    let (opcode, after_opcode) = read_byte_at::<B>(bus, pc);
    match opcode_entry(opcode) {
        None => (Err(Fatal::IllegalOpcode { pc: Address(pc), opcode }), wrap16(pc + 1), after_opcode),
        Some((operation, kind)) => {
            let (first, after_first) = read_byte_at::<B>(after_opcode, wrap16(pc + 1));
            let (second, after_second) = read_byte_at::<B>(after_first, wrap16(pc + 2));
            if kind.operand_len() == 0 {
                (
                    Ok((Instruction { operation, mode: kind.with_operand(0, 0) }, opcode)),
                    wrap16(pc + 1),
                    after_opcode,
                )
            } else if kind.operand_len() == 1 {
                (
                    Ok((Instruction { operation, mode: kind.with_operand(first, 0) }, opcode)),
                    wrap16(pc + 2),
                    after_first,
                )
            } else {
                (
                    Ok((Instruction { operation, mode: kind.with_operand(first, second) }, opcode)),
                    wrap16(pc + 3),
                    after_second,
                )
            }
        },
    }
}

/// Look an opcode up in the table.
pub fn decode_opcode(opcode: u8) -> (entry: Option<(Operation, ModeKind)>)
    ensures
        entry == opcode_entry(opcode),
        entry matches Some((operation, kind)) ==> forall|first: u8, second: u8|
            operation.accepts(#[trigger] kind.with_operand(first, second)),
{
    match opcode {
        0x00 => Some((Operation::Brk, ModeKind::Implicit)),
        0x01 => Some((Operation::Ora, ModeKind::IndexedIndirect)),
        0x02 => Some((Operation::Stp, ModeKind::Implicit)),
        0x03 => Some((Operation::Slo, ModeKind::IndexedIndirect)),
        0x04 => Some((Operation::Nop, ModeKind::ZeroPage)),
        0x05 => Some((Operation::Ora, ModeKind::ZeroPage)),
        0x06 => Some((Operation::Asl, ModeKind::ZeroPage)),
        0x07 => Some((Operation::Slo, ModeKind::ZeroPage)),
        0x08 => Some((Operation::Php, ModeKind::Implicit)),
        0x09 => Some((Operation::Ora, ModeKind::Immediate)),
        0x0A => Some((Operation::Asl, ModeKind::Accumulator)),
        0x0B => None,
        0x0C => Some((Operation::Nop, ModeKind::Absolute)),
        0x0D => Some((Operation::Ora, ModeKind::Absolute)),
        0x0E => Some((Operation::Asl, ModeKind::Absolute)),
        0x0F => Some((Operation::Slo, ModeKind::Absolute)),
        0x10 => Some((Operation::Bpl, ModeKind::Relative)),
        0x11 => Some((Operation::Ora, ModeKind::IndirectIndexed)),
        0x12 => Some((Operation::Stp, ModeKind::Implicit)),
        0x13 => Some((Operation::Slo, ModeKind::IndirectIndexed)),
        0x14 => Some((Operation::Nop, ModeKind::ZeroPageX)),
        0x15 => Some((Operation::Ora, ModeKind::ZeroPageX)),
        0x16 => Some((Operation::Asl, ModeKind::ZeroPageX)),
        0x17 => Some((Operation::Slo, ModeKind::ZeroPageX)),
        0x18 => Some((Operation::Clc, ModeKind::Implicit)),
        0x19 => Some((Operation::Ora, ModeKind::AbsoluteY)),
        0x1A => Some((Operation::Nop, ModeKind::Implicit)),
        0x1B => Some((Operation::Slo, ModeKind::AbsoluteY)),
        0x1C => Some((Operation::Nop, ModeKind::AbsoluteX)),
        0x1D => Some((Operation::Ora, ModeKind::AbsoluteX)),
        0x1E => Some((Operation::Asl, ModeKind::AbsoluteX)),
        0x1F => Some((Operation::Slo, ModeKind::AbsoluteX)),
        0x20 => Some((Operation::Jsr, ModeKind::Absolute)),
        0x21 => Some((Operation::And, ModeKind::IndexedIndirect)),
        0x22 => Some((Operation::Stp, ModeKind::Implicit)),
        0x23 => Some((Operation::Rla, ModeKind::IndexedIndirect)),
        0x24 => Some((Operation::Bit, ModeKind::ZeroPage)),
        0x25 => Some((Operation::And, ModeKind::ZeroPage)),
        0x26 => Some((Operation::Rol, ModeKind::ZeroPage)),
        0x27 => Some((Operation::Rla, ModeKind::ZeroPage)),
        0x28 => Some((Operation::Plp, ModeKind::Implicit)),
        0x29 => Some((Operation::And, ModeKind::Immediate)),
        0x2A => Some((Operation::Rol, ModeKind::Accumulator)),
        0x2B => None,
        0x2C => Some((Operation::Bit, ModeKind::Absolute)),
        0x2D => Some((Operation::And, ModeKind::Absolute)),
        0x2E => Some((Operation::Rol, ModeKind::Absolute)),
        0x2F => Some((Operation::Rla, ModeKind::Absolute)),
        0x30 => Some((Operation::Bmi, ModeKind::Relative)),
        0x31 => Some((Operation::And, ModeKind::IndirectIndexed)),
        0x32 => Some((Operation::Stp, ModeKind::Implicit)),
        0x33 => Some((Operation::Rla, ModeKind::IndirectIndexed)),
        0x34 => Some((Operation::Nop, ModeKind::ZeroPageX)),
        0x35 => Some((Operation::And, ModeKind::ZeroPageX)),
        0x36 => Some((Operation::Rol, ModeKind::ZeroPageX)),
        0x37 => Some((Operation::Rla, ModeKind::ZeroPageX)),
        0x38 => Some((Operation::Sec, ModeKind::Implicit)),
        0x39 => Some((Operation::And, ModeKind::AbsoluteY)),
        0x3A => Some((Operation::Nop, ModeKind::Implicit)),
        0x3B => Some((Operation::Rla, ModeKind::AbsoluteY)),
        0x3C => Some((Operation::Nop, ModeKind::AbsoluteX)),
        0x3D => Some((Operation::And, ModeKind::AbsoluteX)),
        0x3E => Some((Operation::Rol, ModeKind::AbsoluteX)),
        0x3F => Some((Operation::Rla, ModeKind::AbsoluteX)),
        0x40 => Some((Operation::Rti, ModeKind::Implicit)),
        0x41 => Some((Operation::Eor, ModeKind::IndexedIndirect)),
        0x42 => Some((Operation::Stp, ModeKind::Implicit)),
        0x43 => Some((Operation::Sre, ModeKind::IndexedIndirect)),
        0x44 => Some((Operation::Nop, ModeKind::ZeroPage)),
        0x45 => Some((Operation::Eor, ModeKind::ZeroPage)),
        0x46 => Some((Operation::Lsr, ModeKind::ZeroPage)),
        0x47 => Some((Operation::Sre, ModeKind::ZeroPage)),
        0x48 => Some((Operation::Pha, ModeKind::Implicit)),
        0x49 => Some((Operation::Eor, ModeKind::Immediate)),
        0x4A => Some((Operation::Lsr, ModeKind::Accumulator)),
        0x4B => None,
        0x4C => Some((Operation::Jmp, ModeKind::Absolute)),
        0x4D => Some((Operation::Eor, ModeKind::Absolute)),
        0x4E => Some((Operation::Lsr, ModeKind::Absolute)),
        0x4F => Some((Operation::Sre, ModeKind::Absolute)),
        0x50 => Some((Operation::Bvc, ModeKind::Relative)),
        0x51 => Some((Operation::Eor, ModeKind::IndirectIndexed)),
        0x52 => Some((Operation::Stp, ModeKind::Implicit)),
        0x53 => Some((Operation::Sre, ModeKind::IndirectIndexed)),
        0x54 => Some((Operation::Nop, ModeKind::ZeroPageX)),
        0x55 => Some((Operation::Eor, ModeKind::ZeroPageX)),
        0x56 => Some((Operation::Lsr, ModeKind::ZeroPageX)),
        0x57 => Some((Operation::Sre, ModeKind::ZeroPageX)),
        0x58 => Some((Operation::Cli, ModeKind::Implicit)),
        0x59 => Some((Operation::Eor, ModeKind::AbsoluteY)),
        0x5A => Some((Operation::Nop, ModeKind::Implicit)),
        0x5B => Some((Operation::Sre, ModeKind::AbsoluteY)),
        0x5C => Some((Operation::Nop, ModeKind::AbsoluteX)),
        0x5D => Some((Operation::Eor, ModeKind::AbsoluteX)),
        0x5E => Some((Operation::Lsr, ModeKind::AbsoluteX)),
        0x5F => Some((Operation::Sre, ModeKind::AbsoluteX)),
        0x60 => Some((Operation::Rts, ModeKind::Implicit)),
        0x61 => Some((Operation::Adc, ModeKind::IndexedIndirect)),
        0x62 => Some((Operation::Stp, ModeKind::Implicit)),
        0x63 => Some((Operation::Rra, ModeKind::IndexedIndirect)),
        0x64 => Some((Operation::Nop, ModeKind::ZeroPage)),
        0x65 => Some((Operation::Adc, ModeKind::ZeroPage)),
        0x66 => Some((Operation::Ror, ModeKind::ZeroPage)),
        0x67 => Some((Operation::Rra, ModeKind::ZeroPage)),
        0x68 => Some((Operation::Pla, ModeKind::Implicit)),
        0x69 => Some((Operation::Adc, ModeKind::Immediate)),
        0x6A => Some((Operation::Ror, ModeKind::Accumulator)),
        0x6B => None,
        0x6C => Some((Operation::Jmp, ModeKind::Indirect)),
        0x6D => Some((Operation::Adc, ModeKind::Absolute)),
        0x6E => Some((Operation::Ror, ModeKind::Absolute)),
        0x6F => Some((Operation::Rra, ModeKind::Absolute)),
        0x70 => Some((Operation::Bvs, ModeKind::Relative)),
        0x71 => Some((Operation::Adc, ModeKind::IndirectIndexed)),
        0x72 => Some((Operation::Stp, ModeKind::Implicit)),
        0x73 => Some((Operation::Rra, ModeKind::IndirectIndexed)),
        0x74 => Some((Operation::Nop, ModeKind::ZeroPageX)),
        0x75 => Some((Operation::Adc, ModeKind::ZeroPageX)),
        0x76 => Some((Operation::Ror, ModeKind::ZeroPageX)),
        0x77 => Some((Operation::Rra, ModeKind::ZeroPageX)),
        0x78 => Some((Operation::Sei, ModeKind::Implicit)),
        0x79 => Some((Operation::Adc, ModeKind::AbsoluteY)),
        0x7A => Some((Operation::Nop, ModeKind::Implicit)),
        0x7B => Some((Operation::Rra, ModeKind::AbsoluteY)),
        0x7C => Some((Operation::Nop, ModeKind::AbsoluteX)),
        0x7D => Some((Operation::Adc, ModeKind::AbsoluteX)),
        0x7E => Some((Operation::Ror, ModeKind::AbsoluteX)),
        0x7F => Some((Operation::Rra, ModeKind::AbsoluteX)),
        0x80 => Some((Operation::Nop, ModeKind::Immediate)),
        0x81 => Some((Operation::Sta, ModeKind::IndexedIndirect)),
        0x82 => Some((Operation::Nop, ModeKind::Immediate)),
        0x83 => Some((Operation::Sax, ModeKind::IndexedIndirect)),
        0x84 => Some((Operation::Sty, ModeKind::ZeroPage)),
        0x85 => Some((Operation::Sta, ModeKind::ZeroPage)),
        0x86 => Some((Operation::Stx, ModeKind::ZeroPage)),
        0x87 => Some((Operation::Sax, ModeKind::ZeroPage)),
        0x88 => Some((Operation::Dey, ModeKind::Implicit)),
        0x89 => Some((Operation::Nop, ModeKind::Immediate)),
        0x8A => Some((Operation::Txa, ModeKind::Implicit)),
        0x8B => None,
        0x8C => Some((Operation::Sty, ModeKind::Absolute)),
        0x8D => Some((Operation::Sta, ModeKind::Absolute)),
        0x8E => Some((Operation::Stx, ModeKind::Absolute)),
        0x8F => Some((Operation::Sax, ModeKind::Absolute)),
        0x90 => Some((Operation::Bcc, ModeKind::Relative)),
        0x91 => Some((Operation::Sta, ModeKind::IndirectIndexed)),
        0x92 => Some((Operation::Stp, ModeKind::Implicit)),
        0x93 => None,
        0x94 => Some((Operation::Sty, ModeKind::ZeroPageX)),
        0x95 => Some((Operation::Sta, ModeKind::ZeroPageX)),
        0x96 => Some((Operation::Stx, ModeKind::ZeroPageY)),
        0x97 => Some((Operation::Sax, ModeKind::ZeroPageY)),
        0x98 => Some((Operation::Tya, ModeKind::Implicit)),
        0x99 => Some((Operation::Sta, ModeKind::AbsoluteY)),
        0x9A => Some((Operation::Txs, ModeKind::Implicit)),
        0x9B => None,
        0x9C => None,
        0x9D => Some((Operation::Sta, ModeKind::AbsoluteX)),
        0x9E => None,
        0x9F => None,
        0xA0 => Some((Operation::Ldy, ModeKind::Immediate)),
        0xA1 => Some((Operation::Lda, ModeKind::IndexedIndirect)),
        0xA2 => Some((Operation::Ldx, ModeKind::Immediate)),
        0xA3 => Some((Operation::Lax, ModeKind::IndexedIndirect)),
        0xA4 => Some((Operation::Ldy, ModeKind::ZeroPage)),
        0xA5 => Some((Operation::Lda, ModeKind::ZeroPage)),
        0xA6 => Some((Operation::Ldx, ModeKind::ZeroPage)),
        0xA7 => Some((Operation::Lax, ModeKind::ZeroPage)),
        0xA8 => Some((Operation::Tay, ModeKind::Implicit)),
        0xA9 => Some((Operation::Lda, ModeKind::Immediate)),
        0xAA => Some((Operation::Tax, ModeKind::Implicit)),
        0xAB => None,
        0xAC => Some((Operation::Ldy, ModeKind::Absolute)),
        0xAD => Some((Operation::Lda, ModeKind::Absolute)),
        0xAE => Some((Operation::Ldx, ModeKind::Absolute)),
        0xAF => Some((Operation::Lax, ModeKind::Absolute)),
        0xB0 => Some((Operation::Bcs, ModeKind::Relative)),
        0xB1 => Some((Operation::Lda, ModeKind::IndirectIndexed)),
        0xB2 => Some((Operation::Stp, ModeKind::Implicit)),
        0xB3 => Some((Operation::Lax, ModeKind::IndirectIndexed)),
        0xB4 => Some((Operation::Ldy, ModeKind::ZeroPageX)),
        0xB5 => Some((Operation::Lda, ModeKind::ZeroPageX)),
        0xB6 => Some((Operation::Ldx, ModeKind::ZeroPageY)),
        0xB7 => Some((Operation::Lax, ModeKind::ZeroPageY)),
        0xB8 => Some((Operation::Clv, ModeKind::Implicit)),
        0xB9 => Some((Operation::Lda, ModeKind::AbsoluteY)),
        0xBA => Some((Operation::Tsx, ModeKind::Implicit)),
        0xBB => None,
        0xBC => Some((Operation::Ldy, ModeKind::AbsoluteX)),
        0xBD => Some((Operation::Lda, ModeKind::AbsoluteX)),
        0xBE => Some((Operation::Ldx, ModeKind::AbsoluteY)),
        0xBF => Some((Operation::Lax, ModeKind::AbsoluteY)),
        0xC0 => Some((Operation::Cpy, ModeKind::Immediate)),
        0xC1 => Some((Operation::Cmp, ModeKind::IndexedIndirect)),
        0xC2 => Some((Operation::Nop, ModeKind::Immediate)),
        0xC3 => Some((Operation::Dcp, ModeKind::IndexedIndirect)),
        0xC4 => Some((Operation::Cpy, ModeKind::ZeroPage)),
        0xC5 => Some((Operation::Cmp, ModeKind::ZeroPage)),
        0xC6 => Some((Operation::Dec, ModeKind::ZeroPage)),
        0xC7 => Some((Operation::Dcp, ModeKind::ZeroPage)),
        0xC8 => Some((Operation::Iny, ModeKind::Implicit)),
        0xC9 => Some((Operation::Cmp, ModeKind::Immediate)),
        0xCA => Some((Operation::Dex, ModeKind::Implicit)),
        0xCB => None,
        0xCC => Some((Operation::Cpy, ModeKind::Absolute)),
        0xCD => Some((Operation::Cmp, ModeKind::Absolute)),
        0xCE => Some((Operation::Dec, ModeKind::Absolute)),
        0xCF => Some((Operation::Dcp, ModeKind::Absolute)),
        0xD0 => Some((Operation::Bne, ModeKind::Relative)),
        0xD1 => Some((Operation::Cmp, ModeKind::IndirectIndexed)),
        0xD2 => Some((Operation::Stp, ModeKind::Implicit)),
        0xD3 => Some((Operation::Dcp, ModeKind::IndirectIndexed)),
        0xD4 => Some((Operation::Nop, ModeKind::ZeroPageX)),
        0xD5 => Some((Operation::Cmp, ModeKind::ZeroPageX)),
        0xD6 => Some((Operation::Dec, ModeKind::ZeroPageX)),
        0xD7 => Some((Operation::Dcp, ModeKind::ZeroPageX)),
        0xD8 => Some((Operation::Cld, ModeKind::Implicit)),
        0xD9 => Some((Operation::Cmp, ModeKind::AbsoluteY)),
        0xDA => Some((Operation::Nop, ModeKind::Implicit)),
        0xDB => Some((Operation::Dcp, ModeKind::AbsoluteY)),
        0xDC => Some((Operation::Nop, ModeKind::AbsoluteX)),
        0xDD => Some((Operation::Cmp, ModeKind::AbsoluteX)),
        0xDE => Some((Operation::Dec, ModeKind::AbsoluteX)),
        0xDF => Some((Operation::Dcp, ModeKind::AbsoluteX)),
        0xE0 => Some((Operation::Cpx, ModeKind::Immediate)),
        0xE1 => Some((Operation::Sbc, ModeKind::IndexedIndirect)),
        0xE2 => Some((Operation::Nop, ModeKind::Immediate)),
        0xE3 => Some((Operation::Isb, ModeKind::IndexedIndirect)),
        0xE4 => Some((Operation::Cpx, ModeKind::ZeroPage)),
        0xE5 => Some((Operation::Sbc, ModeKind::ZeroPage)),
        0xE6 => Some((Operation::Inc, ModeKind::ZeroPage)),
        0xE7 => Some((Operation::Isb, ModeKind::ZeroPage)),
        0xE8 => Some((Operation::Inx, ModeKind::Implicit)),
        0xE9 => Some((Operation::Sbc, ModeKind::Immediate)),
        0xEA => Some((Operation::Nop, ModeKind::Implicit)),
        0xEB => Some((Operation::Sbc, ModeKind::Immediate)),
        0xEC => Some((Operation::Cpx, ModeKind::Absolute)),
        0xED => Some((Operation::Sbc, ModeKind::Absolute)),
        0xEE => Some((Operation::Inc, ModeKind::Absolute)),
        0xEF => Some((Operation::Isb, ModeKind::Absolute)),
        0xF0 => Some((Operation::Beq, ModeKind::Relative)),
        0xF1 => Some((Operation::Sbc, ModeKind::IndirectIndexed)),
        0xF2 => Some((Operation::Stp, ModeKind::Implicit)),
        0xF3 => Some((Operation::Isb, ModeKind::IndirectIndexed)),
        0xF4 => Some((Operation::Nop, ModeKind::ZeroPageX)),
        0xF5 => Some((Operation::Sbc, ModeKind::ZeroPageX)),
        0xF6 => Some((Operation::Inc, ModeKind::ZeroPageX)),
        0xF7 => Some((Operation::Isb, ModeKind::ZeroPageX)),
        0xF8 => Some((Operation::Sed, ModeKind::Implicit)),
        0xF9 => Some((Operation::Sbc, ModeKind::AbsoluteY)),
        0xFA => Some((Operation::Nop, ModeKind::Implicit)),
        0xFB => Some((Operation::Isb, ModeKind::AbsoluteY)),
        0xFC => Some((Operation::Nop, ModeKind::AbsoluteX)),
        0xFD => Some((Operation::Sbc, ModeKind::AbsoluteX)),
        0xFE => Some((Operation::Inc, ModeKind::AbsoluteX)),
        0xFF => Some((Operation::Isb, ModeKind::AbsoluteX)),
    }
}

/// The number of clock cycles that the instruction with the given opcode
/// takes.
pub fn cycle_cost(opcode: u8) -> (cycles: u8)
    ensures
        cycles == CYCLE_TABLE[opcode as int],
        2 <= cycles <= 8,
{
    proof {
        lemma_cycle_bounds(opcode);
    }
    CYCLE_TABLE[opcode as usize]
}

/// Every instruction takes between two and eight cycles.
pub proof fn lemma_cycle_bounds(opcode: u8)
    ensures
        2 <= CYCLE_TABLE[opcode as int] <= 8,
{
}

/// Read the byte at the program counter and step past it.
pub fn read_byte<B: Bus>(memory: &mut B, pc: &mut Address) -> (byte: u8)
    requires
        old(memory).inv(),
    ensures
        final(memory).inv(),
        (byte, final(memory)@) == read_byte_at::<B>(old(memory)@, old(pc).0),
        final(pc).0 == wrap16(old(pc).0 + 1),
{
    let byte = memory.load(*pc);
    *pc = *pc + 1u8;
    byte
}

/// Read the little-endian address at the program counter and step past it.
pub fn read_addr<B: Bus>(memory: &mut B, pc: &mut Address) -> (addr: Address)
    requires
        old(memory).inv(),
    ensures
        final(memory).inv(),
        ({
            let (low, after_low) = read_byte_at::<B>(old(memory)@, old(pc).0);
            let (high, after_high) = read_byte_at::<B>(after_low, wrap16(old(pc).0 + 1));
            addr.0 == le_word(low, high) && final(memory)@ == after_high
        }),
        final(pc).0 == wrap16(old(pc).0 + 2),
{
    let low = read_byte(memory, pc);
    let high = read_byte(memory, pc);
    Address::from_le_bytes(low, high)
}

/// The byte `byte` as a two's-complement number.
fn to_signed(byte: u8) -> (signed: i8)
    ensures
        signed == signed_byte(byte),
{
    if byte < 0x80 {
        byte as i8
    } else {
        let magnitude: u8 = 0xFF - byte;
        -1i8 - (magnitude as i8)
    }
}

impl Instruction {
    /// Read and decode the instruction at the program counter, which is
    /// left at the next opcode. The opcode is handed back beside the
    /// instruction.
    pub fn fetch<B: Bus>(memory: &mut B, pc: &mut Address) -> (instruction: Result<
        (Instruction, u8),
        Fatal,
    >)
        requires
            old(memory).inv(),
        ensures
            final(memory).inv(),
            (instruction, final(pc).0, final(memory)@) == fetched::<B>(old(memory)@, old(pc).0),
            instruction matches Ok((decoded, _)) ==> decoded.well_formed(),
    {
        let start = *pc;
        let opcode = read_byte(memory, pc);
        let (operation, kind) = match decode_opcode(opcode) {
            Some(entry) => entry,
            None => {
                return Err(Fatal::IllegalOpcode { pc: start, opcode });
            },
        };
        let mode = match kind {
            ModeKind::Implicit => AddressingMode::Implicit,
            ModeKind::Accumulator => AddressingMode::Accumulator,
            ModeKind::Immediate => AddressingMode::Immediate(read_byte(memory, pc)),
            ModeKind::ZeroPage => AddressingMode::ZeroPage(read_byte(memory, pc)),
            ModeKind::ZeroPageX => AddressingMode::ZeroPageX(read_byte(memory, pc)),
            ModeKind::ZeroPageY => AddressingMode::ZeroPageY(read_byte(memory, pc)),
            ModeKind::Relative => AddressingMode::Relative(to_signed(read_byte(memory, pc))),
            ModeKind::Absolute => AddressingMode::Absolute(read_addr(memory, pc)),
            ModeKind::AbsoluteX => AddressingMode::AbsoluteX(read_addr(memory, pc)),
            ModeKind::AbsoluteY => AddressingMode::AbsoluteY(read_addr(memory, pc)),
            ModeKind::Indirect => AddressingMode::Indirect(read_addr(memory, pc)),
            ModeKind::IndexedIndirect => AddressingMode::IndexedIndirect(read_byte(memory, pc)),
            ModeKind::IndirectIndexed => AddressingMode::IndirectIndexed(read_byte(memory, pc)),
        };
        Ok((Instruction { operation, mode }, opcode))
    }
}

} // verus!
