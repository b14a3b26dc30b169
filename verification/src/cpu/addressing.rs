//! The thirteen addressing modes: where an instruction finds its operand.

use super::registers::{RegisterFile, Registers};
use crate::mem::address::{wrap16, Address};
use crate::mem::bus::{load_word, read_byte_at, read_word_at, Bus};
use vstd::prelude::*;

verus! {

/// How an instruction names its operand, together with the operand bytes
/// that followed the opcode.
#[derive(Clone, Copy, Debug, PartialEq, Eq, Structural)]
pub enum AddressingMode {
    /// No operand at all.
    Implicit,
    /// The operand is the accumulator.
    Accumulator,
    /// The operand is the byte that follows the opcode.
    Immediate(u8),
    /// The operand is in the zero page, at the given low byte.
    ZeroPage(u8),
    /// Zero page, indexed by X; the sum wraps within the zero page.
    ZeroPageX(u8),
    /// Zero page, indexed by Y; the sum wraps within the zero page.
    ZeroPageY(u8),
    /// A signed offset from the program counter, for branches.
    Relative(i8),
    /// The operand is at the given address.
    Absolute(Address),
    /// The given address, indexed by X.
    AbsoluteX(Address),
    /// The given address, indexed by Y.
    AbsoluteY(Address),
    /// The given address holds the address of the operand. The second byte
    /// of that pointer is read from the same page as the first.
    Indirect(Address),
    /// The zero-page location at the given byte plus X holds the address of
    /// the operand.
    IndexedIndirect(u8),
    /// The zero-page location at the given byte holds an address, to which
    /// Y is added.
    IndirectIndexed(u8),
}

/// The address one past `addr` within the same 256-byte page: the low byte
/// is incremented without a carry into the high byte.
pub open spec fn next_in_page(addr: u16) -> u16 {
    ((addr / 256) * 256 + (addr + 1) % 256) as u16
}

/// The zero-page location `offset` past `base`, wrapping within the page.
pub open spec fn zero_page_index(base: u8, offset: int) -> u16 {
    ((base + offset) % 256) as u16
}

/// The address one past `addr` within its page.
fn successor_in_page(addr: Address) -> (next: Address)
    ensures
        next.0 == next_in_page(addr.0),
{
    let bytes = addr.to_le_bytes();
    Address::from_le_bytes(bytes[0].wrapping_add(1), bytes[1])
}

/// The zero-page location `offset` past `base`.
fn zero_page(base: u8, offset: u8) -> (addr: Address)
    ensures
        addr.0 == zero_page_index(base, offset as int),
{
    Address(base.wrapping_add(offset) as u16)
}

impl AddressingMode {
    /// Whether the mode names a location in memory.
    pub open spec fn has_address(self) -> bool {
        !(self is Implicit || self is Accumulator || self is Immediate)
    }

    /// Whether an operand can be read through the mode.
    pub open spec fn can_load(self) -> bool {
        !(self is Implicit)
    }

    /// Whether an operand can be written through the mode.
    pub open spec fn can_store(self) -> bool {
        self is Accumulator || self.has_address()
    }

    /// The address that the mode names, and the bus after the loads that
    /// finding it takes. Only the three indirect modes load anything: the
    /// low byte of a pointer, then its high byte.
    pub open spec fn address_of<B: Bus>(self, registers: RegisterFile, bus: B::V) -> (u16, B::V) {
        match self {
            AddressingMode::ZeroPage(base) => (zero_page_index(base, 0), bus),
            AddressingMode::ZeroPageX(base) => (zero_page_index(base, registers.x as int), bus),
            AddressingMode::ZeroPageY(base) => (zero_page_index(base, registers.y as int), bus),
            AddressingMode::Relative(offset) => (wrap16(registers.pc + offset), bus),
            AddressingMode::Absolute(addr) => (addr.0, bus),
            AddressingMode::AbsoluteX(addr) => (wrap16(addr.0 + registers.x), bus),
            AddressingMode::AbsoluteY(addr) => (wrap16(addr.0 + registers.y), bus),
            AddressingMode::Indirect(pointer) => read_word_at::<B>(
                bus,
                pointer.0,
                next_in_page(pointer.0),
            ),
            AddressingMode::IndexedIndirect(base) => read_word_at::<B>(
                bus,
                zero_page_index(base, registers.x as int),
                zero_page_index(base, registers.x + 1),
            ),
            AddressingMode::IndirectIndexed(base) => {
                let (pointer, after) = read_word_at::<B>(
                    bus,
                    zero_page_index(base, 0),
                    zero_page_index(base, 1),
                );
                (wrap16(pointer + registers.y), after)
            },
            _ => (0, bus),
        }
    }

    /// The operand read through the mode, and the bus after the loads that
    /// this takes.
    pub open spec fn operand_of<B: Bus>(self, registers: RegisterFile, bus: B::V) -> (u8, B::V) {
        match self {
            AddressingMode::Accumulator => (registers.a, bus),
            AddressingMode::Immediate(value) => (value, bus),
            _ => {
                let (addr, after) = self.address_of::<B>(registers, bus);
                read_byte_at::<B>(after, addr)
            },
        }
    }

    /// The registers and the bus after `value` was written through the
    /// mode.
    pub open spec fn after_store<B: Bus>(
        self,
        registers: RegisterFile,
        bus: B::V,
        value: u8,
    ) -> (RegisterFile, B::V) {
        match self {
            AddressingMode::Accumulator => (RegisterFile { a: value, ..registers }, bus),
            _ => {
                let (addr, after) = self.address_of::<B>(registers, bus);
                (registers, B::after_write(after, addr, value))
            },
        }
    }

    /// The address that the mode names. Must not be asked of a mode that
    /// names none.
    pub fn effective_address<B: Bus>(&self, memory: &mut B, registers: &Registers) -> (addr:
        Address)
        requires
            old(memory).inv(),
            self.has_address(),
        ensures
            final(memory).inv(),
            (addr.0, final(memory)@) == self.address_of::<B>(registers@, old(memory)@),
    {
        match *self {
            AddressingMode::ZeroPage(base) => zero_page(base, 0),
            AddressingMode::ZeroPageX(base) => zero_page(base, registers.x),
            AddressingMode::ZeroPageY(base) => zero_page(base, registers.y),
            AddressingMode::Relative(offset) => registers.pc + offset,
            AddressingMode::Absolute(addr) => addr,
            AddressingMode::AbsoluteX(addr) => addr + registers.x,
            AddressingMode::AbsoluteY(addr) => addr + registers.y,
            AddressingMode::Indirect(pointer) => {
                // Only the low byte of the pointer is incremented, so that a
                // pointer at the end of a page wraps to the start of it.
                let high_addr = successor_in_page(pointer);
                load_word(memory, pointer, high_addr)
            },
            AddressingMode::IndexedIndirect(base) => {
                let low_addr = zero_page(base, registers.x);
                let high_addr = zero_page(base.wrapping_add(1), registers.x);
                assert(high_addr.0 == zero_page_index(base, registers.x + 1));
                load_word(memory, low_addr, high_addr)
            },
            AddressingMode::IndirectIndexed(base) => {
                let low_addr = zero_page(base, 0);
                let high_addr = zero_page(base, 1);
                let pointer = load_word(memory, low_addr, high_addr);
                pointer + registers.y
            },
            _ => Address(0),
        }
    }

    /// Read the operand through the mode: from a register, from the
    /// instruction itself, or from memory.
    pub fn load<B: Bus>(&self, memory: &mut B, registers: &Registers) -> (value: u8)
        requires
            old(memory).inv(),
            self.can_load(),
        ensures
            final(memory).inv(),
            (value, final(memory)@) == self.operand_of::<B>(registers@, old(memory)@),
    {
        match *self {
            AddressingMode::Accumulator => registers.a,
            AddressingMode::Immediate(value) => value,
            _ => {
                let addr = self.effective_address(memory, registers);
                memory.load(addr)
            },
        }
    }

    /// Write `value` through the mode: to the accumulator or to memory.
    pub fn store<B: Bus>(&self, memory: &mut B, registers: &mut Registers, value: u8)
        requires
            old(memory).inv(),
            self.can_store(),
        ensures
            final(memory).inv(),
            (final(registers)@, final(memory)@) == self.after_store::<B>(
                old(registers)@,
                old(memory)@,
                value,
            ),
            final(registers).p == old(registers).p,
    {
        match *self {
            AddressingMode::Accumulator => {
                registers.a = value;
            },
            _ => {
                let addr = self.effective_address(memory, registers);
                memory.store(addr, value);
            },
        }
    }
}

} // verus!
