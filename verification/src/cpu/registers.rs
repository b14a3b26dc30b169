//! The register file of the CPU and its status flags.

use crate::mem::address::Address;
use vstd::prelude::*;
use vstd::string::StringExecFns;

verus! {

/// Set when the last operation carried out of bit 7 or did not borrow.
pub const CARRY: u8 = 0x01;

/// Set when the last result was zero.
pub const ZERO: u8 = 0x02;

/// While set, the CPU does not respond to interrupt requests.
pub const INTERRUPT_DISABLE: u8 = 0x04;

/// Selects decimal arithmetic on a stock 6502. This CPU stores the flag and
/// never acts on it.
pub const DECIMAL: u8 = 0x08;

/// Tells a software interrupt from a hardware one. It has a meaning only in
/// a status byte on the stack; in the status register it is always clear.
pub const BREAK: u8 = 0x10;

/// Unused, and always set in the status register.
pub const UNUSED: u8 = 0x20;

/// Set when the last addition or subtraction overflowed as a signed one.
pub const OVERFLOW: u8 = 0x40;

/// Set when bit 7 of the last result was set.
pub const NEGATIVE: u8 = 0x80;

/// `bits` with the flags of `mask` switched on or off.
pub open spec fn with_flag(bits: u8, mask: u8, on: bool) -> u8 {
    if on {
        bits | mask
    } else {
        bits & !mask
    }
}

/// Whether every flag of `mask` is set in `bits`.
pub open spec fn has_flag(bits: u8, mask: u8) -> bool {
    bits & mask == mask
}

/// `bits` with ZERO and NEGATIVE set from `value`: ZERO when it is zero,
/// NEGATIVE when its bit 7 is set.
pub open spec fn with_zero_negative(bits: u8, value: u8) -> u8 {
    with_flag(with_flag(bits, ZERO, value == 0), NEGATIVE, value >= 0x80)
}

/// Whether `bits` can stand in the status register: UNUSED set and BREAK
/// clear.
pub open spec fn is_live_status(bits: u8) -> bool {
    has_flag(bits, UNUSED) && !has_flag(bits, BREAK)
}

/// The status byte `bits` as it is taken into the status register: UNUSED
/// forced on and BREAK forced off.
pub open spec fn as_live_status(bits: u8) -> u8 {
    with_flag(with_flag(bits, UNUSED, true), BREAK, false)
}

/// What the status flags mean as bits, for every status byte `bits`:
/// switching a flag on or off sets or clears it and leaves the other named
/// flags as they were; none of the six flags that instructions compute
/// touches UNUSED or BREAK; and taking a byte into the status register
/// makes it live, while it changes nothing of one that already is.
pub proof fn lemma_flag_bits(bits: u8, mask: u8, other: u8, on: bool)
    by (bit_vector)
    ensures
        mask != 0 ==> (has_flag(with_flag(bits, mask, on), mask) <==> on),
        other & mask == 0 ==> (has_flag(with_flag(bits, mask, on), other) <==> has_flag(
            bits,
            other,
        )),
        is_live_status(bits) ==> {
            &&& is_live_status(with_flag(bits, CARRY, on))
            &&& is_live_status(with_flag(bits, ZERO, on))
            &&& is_live_status(with_flag(bits, INTERRUPT_DISABLE, on))
            &&& is_live_status(with_flag(bits, DECIMAL, on))
            &&& is_live_status(with_flag(bits, OVERFLOW, on))
            &&& is_live_status(with_flag(bits, NEGATIVE, on))
        },
        is_live_status(as_live_status(bits)),
        is_live_status(bits) ==> as_live_status(bits) == bits,
        as_live_status(bits) == (bits | 0x20) & 0xEF,
        is_live_status(bits) <==> bits & 0x30 == 0x20,
        is_live_status(0x24),
{
}

/// The eight flags are independent: switching one of them sets or clears
/// it and leaves each of the other seven as it was.
pub proof fn lemma_flags_independent(bits: u8, on: bool)
    by (bit_vector)
    ensures
        has_flag(with_flag(bits, CARRY, on), CARRY) <==> on,
        has_flag(with_flag(bits, CARRY, on), ZERO) <==> has_flag(bits, ZERO),
        has_flag(with_flag(bits, CARRY, on), INTERRUPT_DISABLE) <==> has_flag(bits, INTERRUPT_DISABLE),
        has_flag(with_flag(bits, CARRY, on), DECIMAL) <==> has_flag(bits, DECIMAL),
        has_flag(with_flag(bits, CARRY, on), BREAK) <==> has_flag(bits, BREAK),
        has_flag(with_flag(bits, CARRY, on), UNUSED) <==> has_flag(bits, UNUSED),
        has_flag(with_flag(bits, CARRY, on), OVERFLOW) <==> has_flag(bits, OVERFLOW),
        has_flag(with_flag(bits, CARRY, on), NEGATIVE) <==> has_flag(bits, NEGATIVE),
        has_flag(with_flag(bits, ZERO, on), ZERO) <==> on,
        has_flag(with_flag(bits, ZERO, on), CARRY) <==> has_flag(bits, CARRY),
        has_flag(with_flag(bits, ZERO, on), INTERRUPT_DISABLE) <==> has_flag(bits, INTERRUPT_DISABLE),
        has_flag(with_flag(bits, ZERO, on), DECIMAL) <==> has_flag(bits, DECIMAL),
        has_flag(with_flag(bits, ZERO, on), BREAK) <==> has_flag(bits, BREAK),
        has_flag(with_flag(bits, ZERO, on), UNUSED) <==> has_flag(bits, UNUSED),
        has_flag(with_flag(bits, ZERO, on), OVERFLOW) <==> has_flag(bits, OVERFLOW),
        has_flag(with_flag(bits, ZERO, on), NEGATIVE) <==> has_flag(bits, NEGATIVE),
        has_flag(with_flag(bits, INTERRUPT_DISABLE, on), INTERRUPT_DISABLE) <==> on,
        has_flag(with_flag(bits, INTERRUPT_DISABLE, on), CARRY) <==> has_flag(bits, CARRY),
        has_flag(with_flag(bits, INTERRUPT_DISABLE, on), ZERO) <==> has_flag(bits, ZERO),
        has_flag(with_flag(bits, INTERRUPT_DISABLE, on), DECIMAL) <==> has_flag(bits, DECIMAL),
        has_flag(with_flag(bits, INTERRUPT_DISABLE, on), BREAK) <==> has_flag(bits, BREAK),
        has_flag(with_flag(bits, INTERRUPT_DISABLE, on), UNUSED) <==> has_flag(bits, UNUSED),
        has_flag(with_flag(bits, INTERRUPT_DISABLE, on), OVERFLOW) <==> has_flag(bits, OVERFLOW),
        has_flag(with_flag(bits, INTERRUPT_DISABLE, on), NEGATIVE) <==> has_flag(bits, NEGATIVE),
        has_flag(with_flag(bits, DECIMAL, on), DECIMAL) <==> on,
        has_flag(with_flag(bits, DECIMAL, on), CARRY) <==> has_flag(bits, CARRY),
        has_flag(with_flag(bits, DECIMAL, on), ZERO) <==> has_flag(bits, ZERO),
        has_flag(with_flag(bits, DECIMAL, on), INTERRUPT_DISABLE) <==> has_flag(bits, INTERRUPT_DISABLE),
        has_flag(with_flag(bits, DECIMAL, on), BREAK) <==> has_flag(bits, BREAK),
        has_flag(with_flag(bits, DECIMAL, on), UNUSED) <==> has_flag(bits, UNUSED),
        has_flag(with_flag(bits, DECIMAL, on), OVERFLOW) <==> has_flag(bits, OVERFLOW),
        has_flag(with_flag(bits, DECIMAL, on), NEGATIVE) <==> has_flag(bits, NEGATIVE),
        has_flag(with_flag(bits, BREAK, on), BREAK) <==> on,
        has_flag(with_flag(bits, BREAK, on), CARRY) <==> has_flag(bits, CARRY),
        has_flag(with_flag(bits, BREAK, on), ZERO) <==> has_flag(bits, ZERO),
        has_flag(with_flag(bits, BREAK, on), INTERRUPT_DISABLE) <==> has_flag(bits, INTERRUPT_DISABLE),
        has_flag(with_flag(bits, BREAK, on), DECIMAL) <==> has_flag(bits, DECIMAL),
        has_flag(with_flag(bits, BREAK, on), UNUSED) <==> has_flag(bits, UNUSED),
        has_flag(with_flag(bits, BREAK, on), OVERFLOW) <==> has_flag(bits, OVERFLOW),
        has_flag(with_flag(bits, BREAK, on), NEGATIVE) <==> has_flag(bits, NEGATIVE),
        has_flag(with_flag(bits, UNUSED, on), UNUSED) <==> on,
        has_flag(with_flag(bits, UNUSED, on), CARRY) <==> has_flag(bits, CARRY),
        has_flag(with_flag(bits, UNUSED, on), ZERO) <==> has_flag(bits, ZERO),
        has_flag(with_flag(bits, UNUSED, on), INTERRUPT_DISABLE) <==> has_flag(bits, INTERRUPT_DISABLE),
        has_flag(with_flag(bits, UNUSED, on), DECIMAL) <==> has_flag(bits, DECIMAL),
        has_flag(with_flag(bits, UNUSED, on), BREAK) <==> has_flag(bits, BREAK),
        has_flag(with_flag(bits, UNUSED, on), OVERFLOW) <==> has_flag(bits, OVERFLOW),
        has_flag(with_flag(bits, UNUSED, on), NEGATIVE) <==> has_flag(bits, NEGATIVE),
        has_flag(with_flag(bits, OVERFLOW, on), OVERFLOW) <==> on,
        has_flag(with_flag(bits, OVERFLOW, on), CARRY) <==> has_flag(bits, CARRY),
        has_flag(with_flag(bits, OVERFLOW, on), ZERO) <==> has_flag(bits, ZERO),
        has_flag(with_flag(bits, OVERFLOW, on), INTERRUPT_DISABLE) <==> has_flag(bits, INTERRUPT_DISABLE),
        has_flag(with_flag(bits, OVERFLOW, on), DECIMAL) <==> has_flag(bits, DECIMAL),
        has_flag(with_flag(bits, OVERFLOW, on), BREAK) <==> has_flag(bits, BREAK),
        has_flag(with_flag(bits, OVERFLOW, on), UNUSED) <==> has_flag(bits, UNUSED),
        has_flag(with_flag(bits, OVERFLOW, on), NEGATIVE) <==> has_flag(bits, NEGATIVE),
        has_flag(with_flag(bits, NEGATIVE, on), NEGATIVE) <==> on,
        has_flag(with_flag(bits, NEGATIVE, on), CARRY) <==> has_flag(bits, CARRY),
        has_flag(with_flag(bits, NEGATIVE, on), ZERO) <==> has_flag(bits, ZERO),
        has_flag(with_flag(bits, NEGATIVE, on), INTERRUPT_DISABLE) <==> has_flag(bits, INTERRUPT_DISABLE),
        has_flag(with_flag(bits, NEGATIVE, on), DECIMAL) <==> has_flag(bits, DECIMAL),
        has_flag(with_flag(bits, NEGATIVE, on), BREAK) <==> has_flag(bits, BREAK),
        has_flag(with_flag(bits, NEGATIVE, on), UNUSED) <==> has_flag(bits, UNUSED),
        has_flag(with_flag(bits, NEGATIVE, on), OVERFLOW) <==> has_flag(bits, OVERFLOW),
{
}

/// A live status stays live under any change to the six flags that
/// instructions compute.
pub proof fn lemma_live_status_kept()
    ensures
        forall|bits: u8, on: bool|
            is_live_status(bits) ==> is_live_status(#[trigger] with_flag(bits, CARRY, on)),
        forall|bits: u8, on: bool|
            is_live_status(bits) ==> is_live_status(#[trigger] with_flag(bits, ZERO, on)),
        forall|bits: u8, on: bool|
            is_live_status(bits) ==> is_live_status(
                #[trigger] with_flag(bits, INTERRUPT_DISABLE, on),
            ),
        forall|bits: u8, on: bool|
            is_live_status(bits) ==> is_live_status(#[trigger] with_flag(bits, DECIMAL, on)),
        forall|bits: u8, on: bool|
            is_live_status(bits) ==> is_live_status(#[trigger] with_flag(bits, OVERFLOW, on)),
        forall|bits: u8, on: bool|
            is_live_status(bits) ==> is_live_status(#[trigger] with_flag(bits, NEGATIVE, on)),
        forall|bits: u8, value: u8|
            is_live_status(bits) ==> is_live_status(#[trigger] with_zero_negative(bits, value)),
        forall|bits: u8| is_live_status(#[trigger] as_live_status(bits)),
{
    assert forall|bits: u8, on: bool| is_live_status(bits) implies is_live_status(
        #[trigger] with_flag(bits, CARRY, on),
    ) by {
        lemma_flag_bits(bits, 0, 0, on);
    }
    assert forall|bits: u8, on: bool| is_live_status(bits) implies is_live_status(
        #[trigger] with_flag(bits, ZERO, on),
    ) by {
        lemma_flag_bits(bits, 0, 0, on);
    }
    assert forall|bits: u8, on: bool| is_live_status(bits) implies is_live_status(
        #[trigger] with_flag(bits, INTERRUPT_DISABLE, on),
    ) by {
        lemma_flag_bits(bits, 0, 0, on);
    }
    assert forall|bits: u8, on: bool| is_live_status(bits) implies is_live_status(
        #[trigger] with_flag(bits, DECIMAL, on),
    ) by {
        lemma_flag_bits(bits, 0, 0, on);
    }
    assert forall|bits: u8, on: bool| is_live_status(bits) implies is_live_status(
        #[trigger] with_flag(bits, OVERFLOW, on),
    ) by {
        lemma_flag_bits(bits, 0, 0, on);
    }
    assert forall|bits: u8, on: bool| is_live_status(bits) implies is_live_status(
        #[trigger] with_flag(bits, NEGATIVE, on),
    ) by {
        lemma_flag_bits(bits, 0, 0, on);
    }
    assert forall|bits: u8, value: u8| is_live_status(bits) implies is_live_status(
        #[trigger] with_zero_negative(bits, value),
    ) by {
        assert(is_live_status(with_flag(bits, ZERO, value == 0)));
    }
    assert forall|bits: u8| is_live_status(#[trigger] as_live_status(bits)) by {
        lemma_flag_bits(bits, 0, 0, true);
    }
}

/// The letter of a flag where the flag is set, and a dash where it is
/// clear.
pub open spec fn flag_letter(bits: u8, mask: u8, letter: char) -> char {
    if has_flag(bits, mask) {
        letter
    } else {
        '-'
    }
}

/// A status byte as text: the letters of the flags that are set, from
/// NEGATIVE down to CARRY, between square brackets.
pub open spec fn flags_text(bits: u8) -> Seq<char> {
    seq![
        '[',
        flag_letter(bits, NEGATIVE, 'N'),
        flag_letter(bits, OVERFLOW, 'V'),
        flag_letter(bits, UNUSED, 'U'),
        flag_letter(bits, BREAK, 'B'),
        flag_letter(bits, DECIMAL, 'D'),
        flag_letter(bits, INTERRUPT_DISABLE, 'I'),
        flag_letter(bits, ZERO, 'Z'),
        flag_letter(bits, CARRY, 'C'),
        ']',
    ]
}

/// The registers as text, each with its name: the 8-bit registers in
/// hexadecimal, the program counter as an address, and the flags by their
/// letters.
pub open spec fn registers_text(r: RegisterFile) -> Seq<char> {
    "A: "@ + crate::text::byte_text(r.a) + ", X: "@ + crate::text::byte_text(r.x) + ", Y: "@
        + crate::text::byte_text(r.y) + ", S: "@ + crate::text::byte_text(r.s) + ", PC: "@
        + crate::text::word_text(r.pc) + ", P: "@ + flags_text(r.p)
}

/// The status register: eight named flags in one byte.
#[derive(Clone, Copy, Debug, PartialEq, Eq, Structural)]
pub struct Flags {
    bits: u8,
}

impl View for Flags {
    type V = u8;

    closed spec fn view(&self) -> u8 {
        self.bits
    }
}

impl Flags {
    /// The flags packed in `bits`.
    pub fn from_bits(bits: u8) -> (flags: Flags)
        ensures
            flags@ == bits,
    {
        Flags { bits }
    }

    /// The flags packed into a byte.
    pub fn bits(&self) -> (bits: u8)
        ensures
            bits == self@,
    {
        self.bits
    }

    /// Whether every flag of `mask` is set.
    pub fn contains(&self, mask: u8) -> (set: bool)
        ensures
            set == has_flag(self@, mask),
    {
        self.bits & mask == mask
    }

    /// Set the flags of `mask`.
    pub fn insert(&mut self, mask: u8)
        ensures
            final(self)@ == with_flag(old(self)@, mask, true),
    {
        self.bits = self.bits | mask;
    }

    /// Clear the flags of `mask`.
    pub fn remove(&mut self, mask: u8)
        ensures
            final(self)@ == with_flag(old(self)@, mask, false),
    {
        self.bits = self.bits & !mask;
    }

    /// Write the letter of a flag, or a dash, at the end of `text`.
    fn push_letter(&self, text: &mut String, mask: u8, letter: &str)
        requires
            letter@.len() == 1,
        ensures
            final(text)@ == old(text)@.push(flag_letter(self@, mask, letter@[0])),
    {
        proof {
            reveal_strlit("-");
        }
        if self.contains(mask) {
            text.append(letter);
        } else {
            text.append("-");
        }
        assert(text@ =~= old(text)@.push(flag_letter(self@, mask, letter@[0])));
    }

    /// The flags as text: the letters of the flags that are set, from
    /// NEGATIVE down to CARRY, between square brackets.
    pub fn to_string(&self) -> (text: String)
        ensures
            text@ == flags_text(self@),
    {
        proof {
            reveal_strlit("[");
            reveal_strlit("]");
            reveal_strlit("N");
            reveal_strlit("V");
            reveal_strlit("U");
            reveal_strlit("B");
            reveal_strlit("D");
            reveal_strlit("I");
            reveal_strlit("Z");
            reveal_strlit("C");
        }
        let mut text = String::new();
        text.append("[");
        self.push_letter(&mut text, NEGATIVE, "N");
        self.push_letter(&mut text, OVERFLOW, "V");
        self.push_letter(&mut text, UNUSED, "U");
        self.push_letter(&mut text, BREAK, "B");
        self.push_letter(&mut text, DECIMAL, "D");
        self.push_letter(&mut text, INTERRUPT_DISABLE, "I");
        self.push_letter(&mut text, ZERO, "Z");
        self.push_letter(&mut text, CARRY, "C");
        text.append("]");
        assert(text@ =~= flags_text(self@));
        text
    }

    /// Set or clear the flags of `mask`.
    pub fn set(&mut self, mask: u8, on: bool)
        ensures
            final(self)@ == with_flag(old(self)@, mask, on),
    {
        if on {
            self.insert(mask);
        } else {
            self.remove(mask);
        }
    }
}

/// The registers as plain values.
pub struct RegisterFile {
    /// Accumulator.
    pub a: u8,
    /// Index register X.
    pub x: u8,
    /// Index register Y.
    pub y: u8,
    /// Stack pointer: the low byte of the next free location in page 1.
    pub s: u8,
    /// Program counter.
    pub pc: u16,
    /// Status register.
    pub p: u8,
}

/// The registers of the CPU.
#[derive(Clone, Copy, Debug, PartialEq, Eq, Structural)]
pub struct Registers {
    /// Accumulator.
    pub a: u8,
    /// Index register X.
    pub x: u8,
    /// Index register Y.
    pub y: u8,
    /// Stack pointer: the low byte of the next free location in page 1.
    pub s: u8,
    /// Program counter.
    pub pc: Address,
    /// Status register.
    pub p: Flags,
}

impl View for Registers {
    type V = RegisterFile;

    open spec fn view(&self) -> RegisterFile {
        RegisterFile {
            a: self.a,
            x: self.x,
            y: self.y,
            s: self.s,
            pc: self.pc.0,
            p: self.p@,
        }
    }
}

/// The registers at power-on: the stack pointer at 0xFD, interrupts
/// disabled, everything else zero.
pub open spec fn initial_registers() -> RegisterFile {
    RegisterFile { a: 0, x: 0, y: 0, s: 0xFD, pc: 0, p: 0x24 }
}

impl Registers {
    /// The registers at power-on.
    pub fn new() -> (registers: Registers)
        ensures
            registers@ == initial_registers(),
            is_live_status(registers@.p),
    {
        proof {
            lemma_flag_bits(0x24, 0, 0, true);
        }
        Registers {
            a: 0,
            x: 0,
            y: 0,
            s: 0xFD,
            pc: Address(0),
            p: Flags::from_bits(0x24),
        }
    }

    /// The registers as text, each with its name.
    pub fn to_string(&self) -> (text: String)
        ensures
            text@ == registers_text(self@),
    {
        let mut text = String::new();
        text.append("A: ");
        crate::text::push_byte(&mut text, self.a);
        text.append(", X: ");
        crate::text::push_byte(&mut text, self.x);
        text.append(", Y: ");
        crate::text::push_byte(&mut text, self.y);
        text.append(", S: ");
        crate::text::push_byte(&mut text, self.s);
        text.append(", PC: ");
        crate::text::push_word(&mut text, self.pc.0);
        text.append(", P: ");
        let flags = self.p.to_string();
        text.append(flags.as_str());
        assert(text@ =~= registers_text(self@));
        text
    }
}

} // verus!
