//! An emulated MOS 6502, as built into the CPU of the NES.
//!
//! The CPU supports every documented instruction and the stable
//! undocumented ones. Decimal mode is absent, as it is in the NES: the
//! decimal flag can be set and cleared, and arithmetic ignores it.
//!
//! Instructions take effect as a whole on the first of their clock cycles;
//! timing is exact per instruction, not per bus access.

pub mod addressing;
pub mod instruction;
pub mod registers;
pub mod semantics;

pub use addressing::AddressingMode;
pub use instruction::{Fatal, Instruction, Operation};
pub use registers::{Flags, Registers};

use crate::mem::address::{wrap16, Address};
use crate::mem::bus::{load_word, Bus, FlatMemory};
use instruction::cycle_cost;
use registers::{
    is_live_status, lemma_live_status_kept, RegisterFile, BREAK, CARRY, DECIMAL,
    INTERRUPT_DISABLE, NEGATIVE, OVERFLOW, UNUSED, ZERO,
};
use semantics::{on_registers, CpuState, IRQ_VECTOR, NMI_VECTOR, RESET_VECTOR, STACK_START};
use vstd::prelude::*;

verus! {

/// An emulated MOS 6502.
pub struct Cpu {
    registers: Registers,
    irq_pending: bool,
    cycles_remaining: u8,
    cycle: u64,
}

impl View for Cpu {
    type V = CpuState;

    closed spec fn view(&self) -> CpuState {
        CpuState {
            registers: self.registers@,
            irq_pending: self.irq_pending,
            cycles_remaining: self.cycles_remaining,
            cycle: self.cycle,
        }
    }
}

/// The CPU at power-on, before its first reset.
pub open spec fn initial_state() -> CpuState {
    CpuState {
        registers: registers::initial_registers(),
        irq_pending: false,
        cycles_remaining: 0,
        cycle: 0,
    }
}

/// The 64 KiB of memory that a raw program runs in: the program from
/// address zero on, cut off at the end of the address space, zeros after
/// it, and `start`, if there is one, in the reset vector.
pub open spec fn program_image(binary: Seq<u8>, start: Option<Address>) -> Seq<u8> {
    let loaded = Seq::new(
        0x1_0000,
        |i: int|
            if i < binary.len() {
                binary[i]
            } else {
                0u8
            },
    );
    match start {
        Some(addr) => loaded.update(0xFFFC, (addr.0 % 256) as u8).update(
            0xFFFD,
            (addr.0 / 256) as u8,
        ),
        None => loaded,
    }
}

/// The address, as a number, at which a run ends.
pub open spec fn end_of_run(end: Option<Address>) -> Option<u16> {
    match end {
        Some(addr) => Some(addr.0),
        None => None,
    }
}

/// A shift to the left doubles a byte, dropping what does not fit.
proof fn lemma_shift_left(v: u8)
    by (bit_vector)
    ensures
        (v << 1u8) == (2 * v) % 256,
{
}

/// A rotation to the left doubles a byte, dropping what does not fit, and
/// adds the carry `c` that is moved in at the low end.
proof fn lemma_rotate_left(v: u8, c: u8)
    by (bit_vector)
    ensures
        c <= 1 ==> ((v << 1u8) | c) == (2 * v + c) % 256,
{
}

/// A shift to the right halves a byte; a carry `c` moved in at the high end
/// adds 128.
proof fn lemma_shift_right(v: u8, c: u8)
    by (bit_vector)
    ensures
        (v >> 1u8) == v / 2,
        c <= 1 ==> ((v >> 1u8) | (c << 7u8)) == v / 2 + 128 * c,
{
}

/// Bit 7 of a byte is set from 128 on, bit 0 in odd numbers, and bit 6
/// where the number of whole 64s is odd.
proof fn lemma_bit_tests(v: u8)
    by (bit_vector)
    ensures
        (v & 0x80 != 0) <==> v >= 0x80,
        (v & 0x01 != 0) <==> v % 2 == 1,
        (v & 0x40 != 0) <==> (v / 64) % 2 == 1,
{
}

/// The byte `value` plus one, wrapping at 8 bits.
fn incremented(value: u8) -> (result: u8)
    ensures
        result == ((value + 1) % 256) as u8,
{
    value.wrapping_add(1)
}

/// The byte `value` minus one, wrapping at 8 bits.
fn decremented(value: u8) -> (result: u8)
    ensures
        result == ((value + -1) % 256) as u8,
{
    value.wrapping_sub(1)
}

/// The low 8 bits of `n` plus `m` plus the carry, and the carry out of
/// bit 7.
fn added(n: u8, m: u8, carry: bool) -> (sum: (u8, bool))
    ensures
        sum.0 == ((n + m + if carry { 1int } else { 0int }) % 256) as u8,
        sum.1 == (n + m + if carry { 1int } else { 0int } > 255),
{
    let carry_in: u16 = if carry {
        1
    } else {
        0
    };
    // The sum is taken in 16 bits, where the carry out of bit 7 shows.
    let wide: u16 = n as u16 + m as u16 + carry_in;
    ((wide % 256) as u8, wide > 255)
}

/// The low 8 bits of `n` minus `m` minus the borrow, which is the
/// complement of the carry, and the carry afterwards: set where nothing
/// had to be borrowed.
fn subtracted(n: u8, m: u8, carry: bool) -> (difference: (u8, bool))
    ensures
        difference.0 == ((n - m - if carry { 0int } else { 1int }) % 256) as u8,
        difference.1 == (n - m - if carry { 0int } else { 1int } >= 0),
{
    let borrow: i16 = if carry {
        0
    } else {
        1
    };
    // The difference is taken in 16 bits, where a borrow shows as a
    // negative number.
    let wide: i16 = n as i16 - m as i16 - borrow;
    if wide >= 0 {
        (wide as u8, true)
    } else {
        ((wide + 256) as u8, false)
    }
}

/// Whether an addition of `n` and `m` that gave `res` overflowed as a
/// signed one: the sign of the result differs from that of both operands.
fn twos_complement_overflow(n: u8, m: u8, res: u8) -> (overflow: bool)
    ensures
        overflow == semantics::signed_overflow(n, m, res),
{
    (n ^ res) & (m ^ res) & 0x80 != 0
}

impl Cpu {
    /// What holds of the CPU at all times: in the status register UNUSED
    /// is set and BREAK is clear.
    pub open spec fn wf(&self) -> bool {
        is_live_status(self@.registers.p)
    }

    /// A CPU at power-on. It wants a reset before it runs.
    pub fn new() -> (cpu: Cpu)
        ensures
            cpu.wf(),
            cpu@ == initial_state(),
    {
        Cpu { registers: Registers::new(), irq_pending: false, cycles_remaining: 0, cycle: 0 }
    }

    /// Run a raw program on this CPU alone, in 64 KiB of plain memory.
    ///
    /// The program is copied to address zero on. With a `start`, the reset
    /// vector is overwritten with it; without, the program's own reset
    /// vector says where it starts. The CPU is reset and then steps until
    /// the program counter is at `end`, which gives `true`; until
    /// `max_steps` instructions were carried out, which gives `false`; or
    /// until a step is fatal.
    pub fn run(
        &mut self,
        binary: &[u8],
        start: Option<Address>,
        end: Option<Address>,
        max_steps: u64,
    ) -> (outcome: Result<bool, Fatal>)
        requires
            old(self).wf(),
        ensures
            final(self).wf(),
            ({
                let image = program_image(binary@, start);
                let (at_reset, memory) = semantics::reset::<FlatMemory>(old(self)@, image);
                let (result, after, _) = semantics::ran::<FlatMemory>(
                    at_reset,
                    memory,
                    end_of_run(end),
                    max_steps as nat,
                );
                outcome == result && final(self)@ == after
            }),
    {
        let mut memory: FlatMemory = [0u8; 0x10000];
        let count: usize = if binary.len() < 0x10000 {
            binary.len()
        } else {
            0x10000
        };
        let mut i: usize = 0;
        while i < count
            invariant
                i <= count <= 0x1_0000,
                count <= binary@.len(),
                forall|k: int| 0 <= k < i ==> memory@[k] == binary@[k],
                forall|k: int| i <= k < 0x1_0000 ==> memory@[k] == 0,
            decreases count - i,
        {
            memory[i] = binary[i];
            i += 1;
        }
        assert(memory@ =~= program_image(binary@, None));
        if let Some(start) = start {
            self.set_reset_vector(&mut memory, start);
        }
        assert(memory@ =~= program_image(binary@, start));
        self.reset(&mut memory);
        self.run_until(&mut memory, end, max_steps)
    }

    /// Step until the program counter is at `end`, which gives `true`;
    /// until `max_steps` instructions were carried out, which gives
    /// `false`; or until a step is fatal.
    pub fn run_until<B: Bus>(&mut self, memory: &mut B, end: Option<Address>, max_steps: u64) -> (outcome:
        Result<bool, Fatal>)
        requires
            old(self).wf(),
            old(memory).inv(),
        ensures
            final(self).wf(),
            final(memory).inv(),
            (outcome, final(self)@, final(memory)@) == semantics::ran::<B>(
                old(self)@,
                old(memory)@,
                end_of_run(end),
                max_steps as nat,
            ),
    {
        let mut remaining = max_steps;
        loop
            invariant
                self.wf(),
                memory.inv(),
                semantics::ran::<B>(self@, memory@, end_of_run(end), remaining as nat)
                    == semantics::ran::<B>(
                    old(self)@,
                    old(memory)@,
                    end_of_run(end),
                    max_steps as nat,
                ),
            decreases remaining,
        {
            if let Some(end) = end {
                if self.registers.pc.0 == end.0 {
                    return Ok(true);
                }
            }
            if remaining == 0 {
                return Ok(false);
            }
            match self.step(memory) {
                Err(fatal) => {
                    return Err(fatal);
                },
                Ok(_) => {},
            }
            remaining -= 1;
        }
    }

    /// Write `addr` to the reset vector: execution starts there after the
    /// next reset.
    pub fn set_reset_vector<B: Bus>(&mut self, memory: &mut B, addr: Address)
        requires
            old(memory).inv(),
        ensures
            final(memory).inv(),
            *final(self) == *old(self),
            final(memory)@ == B::after_write(
                B::after_write(old(memory)@, RESET_VECTOR, (addr.0 % 256) as u8),
                wrap16(RESET_VECTOR + 1),
                (addr.0 / 256) as u8,
            ),
    {
        let bytes = addr.to_le_bytes();
        memory.store(Address(RESET_VECTOR), bytes[0]);
        memory.store(Address(RESET_VECTOR + 1), bytes[1]);
    }

    /// The registers as they are.
    pub fn registers(&self) -> (registers: &Registers)
        ensures
            registers@ == self@.registers,
    {
        &self.registers
    }

    /// Whether an interrupt request waits for interrupts to be enabled.
    pub fn irq_pending(&self) -> (pending: bool)
        ensures
            pending == self@.irq_pending,
    {
        self.irq_pending
    }

    /// How many cycles of the current instruction are still to pass.
    pub fn cycles_remaining(&self) -> (cycles: u8)
        ensures
            cycles == self@.cycles_remaining,
    {
        self.cycles_remaining
    }

    /// How many cycles have passed since the reset.
    pub fn cycle(&self) -> (cycle: u64)
        ensures
            cycle == self@.cycle,
    {
        self.cycle
    }

    /// Set the program counter.
    pub fn set_pc(&mut self, addr: Address)
        requires
            old(self).wf(),
        ensures
            final(self).wf(),
            final(self)@ == (CpuState {
                registers: RegisterFile { pc: addr.0, ..old(self)@.registers },
                ..old(self)@
            }),
    {
        self.registers.pc = addr;
    }

    /// Fetch one instruction and carry it out. The result is the number of
    /// clock cycles that the instruction takes; the cycle counter is left
    /// to `tick`.
    ///
    /// An interrupt request that was waiting is served first, if interrupts
    /// are enabled by now. The step is fatal if the opcode is one of the
    /// unstable ones, if the instruction is the halting one, or if the
    /// program counter ends where it was when the step began: a program
    /// that jumps or branches to the very instruction it is at is stuck.
    pub fn step<B: Bus>(&mut self, memory: &mut B) -> (cycles: Result<u8, Fatal>)
        requires
            old(self).wf(),
            old(memory).inv(),
        ensures
            final(self).wf(),
            final(memory).inv(),
            (cycles, final(self)@, final(memory)@) == semantics::stepped::<B>(
                old(self)@,
                old(memory)@,
            ),
            cycles matches Ok(cost) ==> 2 <= cost <= 8,
    {
        reveal(semantics::stepped);
        let pc = self.registers.pc;
        if self.irq_pending && !self.registers.p.contains(INTERRUPT_DISABLE) {
            self.irq_pending = false;
            self.irq(memory);
        }
        let (instruction, opcode) = match Instruction::fetch(memory, &mut self.registers.pc) {
            Ok(fetched) => fetched,
            Err(fatal) => {
                return Err(fatal);
            },
        };
        match self.exec(memory, instruction) {
            Ok(_) => {},
            Err(fatal) => {
                return Err(fatal);
            },
        }
        if pc.0 == self.registers.pc.0 {
            return Err(Fatal::InfiniteLoop { pc });
        }
        Ok(cycle_cost(opcode))
    }

    /// Let one cycle of the external clock pass. On the first cycle of an
    /// instruction the whole instruction takes effect; for the cycles that
    /// are left of its cost the CPU only waits.
    pub fn tick<B: Bus>(&mut self, memory: &mut B) -> (outcome: Result<(), Fatal>)
        requires
            old(self).wf(),
            old(memory).inv(),
        ensures
            final(self).wf(),
            final(memory).inv(),
            (outcome, final(self)@, final(memory)@) == semantics::ticked::<B>(
                old(self)@,
                old(memory)@,
            ),
            old(self)@.cycles_remaining == 0 && outcome is Ok ==> semantics::stepped::<B>(
                old(self)@,
                old(memory)@,
            ).0 == Ok::<u8, Fatal>((final(self)@.cycles_remaining + 1) as u8),
    {
        let outcome = if self.cycles_remaining == 0 {
            match self.step(memory) {
                Ok(cost) => {
                    self.cycles_remaining = cost - 1;
                    Ok(())
                },
                Err(fatal) => Err(fatal),
            }
        } else {
            self.cycles_remaining -= 1;
            Ok(())
        };
        self.cycle = self.cycle.wrapping_add(1);
        outcome
    }

    /// Reset the CPU: interrupts are disabled and execution goes on at the
    /// address in the reset vector.
    pub fn reset<B: Bus>(&mut self, memory: &mut B)
        requires
            old(self).wf(),
            old(memory).inv(),
        ensures
            final(self).wf(),
            final(memory).inv(),
            (final(self)@, final(memory)@) == semantics::reset::<B>(old(self)@, old(memory)@),
    {
        self.registers.p.insert(INTERRUPT_DISABLE);
        self.registers.pc = load_word(memory, Address(RESET_VECTOR), Address(RESET_VECTOR + 1));
        // The reset sequence takes seven cycles before the first fetch.
        self.cycle = 7;
        self.cycles_remaining = 0;
        proof {
            lemma_live_status_kept();
        }
    }

    /// Interrupt request. While interrupts are disabled the request waits;
    /// it is served at the start of the first step after they are enabled.
    pub fn irq<B: Bus>(&mut self, memory: &mut B)
        requires
            old(self).wf(),
            old(memory).inv(),
        ensures
            final(self).wf(),
            final(memory).inv(),
            (final(self)@, final(memory)@) == semantics::irq::<B>(old(self)@, old(memory)@),
    {
        if self.registers.p.contains(INTERRUPT_DISABLE) {
            self.irq_pending = true;
        } else {
            self.interrupt(memory, Address(IRQ_VECTOR), false);
        }
    }

    /// Non-maskable interrupt.
    pub fn nmi<B: Bus>(&mut self, memory: &mut B)
        requires
            old(self).wf(),
            old(memory).inv(),
        ensures
            final(self).wf(),
            final(memory).inv(),
            (final(self)@, final(memory)@) == semantics::nmi::<B>(old(self)@, old(memory)@),
    {
        self.interrupt(memory, Address(NMI_VECTOR), false);
    }

    /// Carry out one decoded instruction.
    pub fn exec<B: Bus>(&mut self, memory: &mut B, instruction: Instruction) -> (outcome: Result<
        (),
        Fatal,
    >)
        requires
            old(self).wf(),
            old(memory).inv(),
            instruction.well_formed(),
        ensures
            final(self).wf(),
            final(memory).inv(),
            (outcome, final(self)@, final(memory)@) == semantics::executed::<B>(
                old(self)@,
                old(memory)@,
                instruction,
            ),
    {
        reveal(semantics::executed);
        reveal(semantics::operated);
        let am = instruction.mode;
        match instruction.operation {
            Operation::Adc => self.adc(am, memory),
            Operation::And => self.and(am, memory),
            Operation::Asl => {
                let _ = self.asl(am, memory);
            },
            Operation::Bcc => self.bcc(am, memory),
            Operation::Bcs => self.bcs(am, memory),
            Operation::Beq => self.beq(am, memory),
            Operation::Bit => self.bit(am, memory),
            Operation::Bmi => self.bmi(am, memory),
            Operation::Bne => self.bne(am, memory),
            Operation::Bpl => self.bpl(am, memory),
            Operation::Brk => self.brk(memory),
            Operation::Bvc => self.bvc(am, memory),
            Operation::Bvs => self.bvs(am, memory),
            Operation::Clc => self.clc(),
            Operation::Cld => self.cld(),
            Operation::Cli => self.cli(),
            Operation::Clv => self.clv(),
            Operation::Cmp => self.cmp(am, memory),
            Operation::Cpx => self.cpx(am, memory),
            Operation::Cpy => self.cpy(am, memory),
            Operation::Dec => {
                let _ = self.dec(am, memory);
            },
            Operation::Dex => self.dex(),
            Operation::Dey => self.dey(),
            Operation::Eor => self.eor(am, memory),
            Operation::Inc => {
                let _ = self.inc(am, memory);
            },
            Operation::Inx => self.inx(),
            Operation::Iny => self.iny(),
            Operation::Jmp => self.jmp(am, memory),
            Operation::Jsr => self.jsr(am, memory),
            Operation::Lda => self.lda(am, memory),
            Operation::Ldx => self.ldx(am, memory),
            Operation::Ldy => self.ldy(am, memory),
            Operation::Lsr => {
                let _ = self.lsr(am, memory);
            },
            Operation::Nop => self.nop(am, memory),
            Operation::Ora => self.ora(am, memory),
            Operation::Pha => self.pha(memory),
            Operation::Php => self.php(memory),
            Operation::Pla => self.pla(memory),
            Operation::Plp => self.plp(memory),
            Operation::Rol => {
                let _ = self.rol(am, memory);
            },
            Operation::Ror => {
                let _ = self.ror(am, memory);
            },
            Operation::Rti => self.rti(memory),
            Operation::Rts => self.rts(memory),
            Operation::Sbc => self.sbc(am, memory),
            Operation::Sec => self.sec(),
            Operation::Sed => self.sed(),
            Operation::Sei => self.sei(),
            Operation::Sta => self.sta(am, memory),
            Operation::Stx => self.stx(am, memory),
            Operation::Sty => self.sty(am, memory),
            Operation::Tax => self.tax(),
            Operation::Tay => self.tay(),
            Operation::Tsx => self.tsx(),
            Operation::Txa => self.txa(),
            Operation::Txs => self.txs(),
            Operation::Tya => self.tya(),
            Operation::Dcp => self.undoc_dcp(am, memory),
            Operation::Isb => self.undoc_isb(am, memory),
            Operation::Lax => self.undoc_lax(am, memory),
            Operation::Rla => self.undoc_rla(am, memory),
            Operation::Rra => self.undoc_rra(am, memory),
            Operation::Sax => self.undoc_sax(am, memory),
            Operation::Slo => self.undoc_slo(am, memory),
            Operation::Sre => self.undoc_sre(am, memory),
            Operation::Stp => {
                return Err(Fatal::Halted);
            },
        }
        Ok(())
    }

    /// Leave the normal flow of execution for an interrupt handler, whose
    /// address is found at `vector`. `brk` tells a software interrupt from
    /// a hardware one; it ends up as the BREAK flag of the status byte on
    /// the stack.
    pub fn interrupt<B: Bus>(&mut self, memory: &mut B, vector: Address, brk: bool)
        requires
            old(self).wf(),
            old(memory).inv(),
        ensures
            final(self).wf(),
            final(memory).inv(),
            (final(self)@, final(memory)@) == semantics::interrupted::<B>(
                old(self)@,
                old(memory)@,
                vector.0,
                brk,
            ),
    {
        let bytes = (self.registers.pc + 1u8).to_le_bytes();
        self.push_stack(memory, bytes[1]);
        self.push_stack(memory, bytes[0]);
        let mut flags = self.registers.p;
        flags.set(BREAK, brk);
        self.push_stack(memory, flags.bits());
        // The handler must not itself be interrupted.
        self.registers.p.insert(INTERRUPT_DISABLE);
        self.registers.pc = load_word(memory, vector, vector + 1u8);
        // An interrupt takes seven cycles before the handler starts.
        self.cycle = self.cycle.wrapping_add(7);
        proof {
            lemma_live_status_kept();
        }
    }

    /// The address of the next free location on the stack.
    pub fn stack(&self) -> (addr: Address)
        ensures
            addr.0 == semantics::stack_address(self@.registers.s),
    {
        Address(STACK_START) + self.registers.s
    }

    /// Push a value onto the stack. The stack pointer wraps within the
    /// stack page; a full stack overwrites its oldest entries.
    pub fn push_stack<B: Bus>(&mut self, memory: &mut B, value: u8)
        requires
            old(self).wf(),
            old(memory).inv(),
        ensures
            final(self).wf(),
            final(memory).inv(),
            (final(self)@, final(memory)@) == on_registers(
                old(self)@,
                semantics::pushed::<B>(old(self)@.registers, old(memory)@, value),
            ),
    {
        let addr = self.stack();
        memory.store(addr, value);
        self.registers.s = self.registers.s.wrapping_sub(1);
    }

    /// Pull a value from the stack. The stack pointer wraps within the
    /// stack page.
    pub fn pull_stack<B: Bus>(&mut self, memory: &mut B) -> (value: u8)
        requires
            old(self).wf(),
            old(memory).inv(),
        ensures
            final(self).wf(),
            final(memory).inv(),
            ({
                let (pulled, registers, bus) = semantics::pulled::<B>(
                    old(self)@.registers,
                    old(memory)@,
                );
                value == pulled && (final(self)@, final(memory)@) == on_registers(
                    old(self)@,
                    (registers, bus),
                )
            }),
    {
        self.registers.s = self.registers.s.wrapping_add(1);
        let addr = self.stack();
        memory.load(addr)
    }

    /// Pull the status register from the stack. Bits 4 and 5 of the pulled
    /// byte are ignored: in the register BREAK is clear and UNUSED set.
    pub fn pull_flags<B: Bus>(&mut self, memory: &mut B)
        requires
            old(self).wf(),
            old(memory).inv(),
        ensures
            final(self).wf(),
            final(memory).inv(),
            (final(self)@, final(memory)@) == on_registers(
                old(self)@,
                semantics::pulled_flags::<B>(old(self)@.registers, old(memory)@),
            ),
    {
        let bits = self.pull_stack(memory);
        let mut flags = Flags::from_bits(bits);
        flags.insert(UNUSED);
        flags.remove(BREAK);
        self.registers.p = flags;
        proof {
            lemma_live_status_kept();
            assert(self.registers.p@ == registers::as_live_status(bits));
        }
    }

    /// Set ZERO and NEGATIVE from `value`.
    pub fn check_zero_or_negative(&mut self, value: u8)
        requires
            old(self).wf(),
        ensures
            final(self).wf(),
            final(self)@ == (CpuState {
                registers: RegisterFile {
                    p: registers::with_zero_negative(old(self)@.registers.p, value),
                    ..old(self)@.registers
                },
                ..old(self)@
            }),
    {
        proof {
            lemma_live_status_kept();
        }
        self.registers.p.set(ZERO, value == 0);
        self.registers.p.set(NEGATIVE, value > 127);
    }

    /// Set the flags for the comparison of the value `register` of a
    /// register with `value`.
    fn set_compared(&mut self, register: u8, value: u8)
        requires
            old(self).wf(),
        ensures
            final(self).wf(),
            final(self)@ == (CpuState {
                registers: semantics::compared(old(self)@.registers, register, value),
                ..old(self)@
            }),
    {
        proof {
            lemma_live_status_kept();
        }
        let difference = register.wrapping_sub(value);
        self.registers.p.set(CARRY, register >= value);
        self.check_zero_or_negative(difference);
    }

    /// Switch the flags of `mask`, which holds none of BREAK and UNUSED,
    /// on or off.
    fn change_flag(&mut self, mask: u8, on: bool)
        requires
            old(self).wf(),
            mask == CARRY || mask == DECIMAL || mask == INTERRUPT_DISABLE || mask == OVERFLOW,
        ensures
            final(self).wf(),
            final(self)@ == (CpuState {
                registers: semantics::flag_changed(old(self)@.registers, mask, on),
                ..old(self)@
            }),
    {
        self.registers.p.set(mask, on);
        proof {
            lemma_live_status_kept();
        }
    }

    /// Add `value` and the carry to the accumulator.
    fn add_value(&mut self, value: u8)
        requires
            old(self).wf(),
        ensures
            final(self).wf(),
            final(self)@ == (CpuState {
                registers: semantics::add_with_carry(old(self)@.registers, value),
                ..old(self)@
            }),
    {
        proof {
            lemma_live_status_kept();
        }
        let carry_in = self.registers.p.contains(CARRY);
        let (res, carry_out) = added(self.registers.a, value, carry_in);
        let overflow = twos_complement_overflow(self.registers.a, value, res);
        self.registers.p.set(OVERFLOW, overflow);
        self.registers.a = res;
        self.registers.p.set(CARRY, carry_out);
        self.check_zero_or_negative(res);
    }

    /// Subtract `value` and the borrow from the accumulator.
    fn subtract_value(&mut self, value: u8)
        requires
            old(self).wf(),
        ensures
            final(self).wf(),
            final(self)@ == (CpuState {
                registers: semantics::subtract_with_borrow(old(self)@.registers, value),
                ..old(self)@
            }),
    {
        proof {
            lemma_live_status_kept();
        }
        let carry_in = self.registers.p.contains(CARRY);
        let (res, carry_out) = subtracted(self.registers.a, value, carry_in);
        let overflow = twos_complement_overflow(self.registers.a, !value, res);
        self.registers.p.set(OVERFLOW, overflow);
        self.registers.a = res;
        self.registers.p.set(CARRY, carry_out);
        self.check_zero_or_negative(res);
    }

    /// AND the accumulator with `value`.
    fn and_value(&mut self, value: u8)
        requires
            old(self).wf(),
        ensures
            final(self).wf(),
            final(self)@ == (CpuState {
                registers: semantics::and_with(old(self)@.registers, value),
                ..old(self)@
            }),
    {
        self.registers.a = self.registers.a & value;
        let res = self.registers.a;
        self.check_zero_or_negative(res);
    }

    /// OR the accumulator with `value`.
    fn or_value(&mut self, value: u8)
        requires
            old(self).wf(),
        ensures
            final(self).wf(),
            final(self)@ == (CpuState {
                registers: semantics::or_with(old(self)@.registers, value),
                ..old(self)@
            }),
    {
        self.registers.a = self.registers.a | value;
        let res = self.registers.a;
        self.check_zero_or_negative(res);
    }

    /// Exclusive-OR the accumulator with `value`.
    fn eor_value(&mut self, value: u8)
        requires
            old(self).wf(),
        ensures
            final(self).wf(),
            final(self)@ == (CpuState {
                registers: semantics::eor_with(old(self)@.registers, value),
                ..old(self)@
            }),
    {
        self.registers.a = self.registers.a ^ value;
        let res = self.registers.a;
        self.check_zero_or_negative(res);
    }
}

/// The instructions, one method each.
impl Cpu {
    /// Add with carry.
    pub fn adc<B: Bus>(&mut self, am: AddressingMode, memory: &mut B)
        requires
            old(self).wf(),
            old(memory).inv(),
            am.can_load(),
        ensures
            final(self).wf(),
            final(memory).inv(),
            (final(self)@, final(memory)@) == on_registers(
                old(self)@,
                semantics::adc::<B>(old(self)@.registers, old(memory)@, am),
            ),
    {
        let value = am.load(memory, &self.registers);
        self.add_value(value);
    }

    /// Logical AND.
    pub fn and<B: Bus>(&mut self, am: AddressingMode, memory: &mut B)
        requires
            old(self).wf(),
            old(memory).inv(),
            am.can_load(),
        ensures
            final(self).wf(),
            final(memory).inv(),
            (final(self)@, final(memory)@) == on_registers(
                old(self)@,
                semantics::and::<B>(old(self)@.registers, old(memory)@, am),
            ),
    {
        let value = am.load(memory, &self.registers);
        self.and_value(value);
    }

    /// Arithmetic shift left. The result is the value written.
    pub fn asl<B: Bus>(&mut self, am: AddressingMode, memory: &mut B) -> (written: u8)
        requires
            old(self).wf(),
            old(memory).inv(),
            am.can_store(),
        ensures
            final(self).wf(),
            final(memory).inv(),
            (final(self)@, final(memory)@) == on_registers(
                old(self)@,
                semantics::asl::<B>(old(self)@.registers, old(memory)@, am),
            ),
            written == semantics::doubled(am.operand_of::<B>(old(self)@.registers, old(memory)@).0),
    {
        proof {
            lemma_live_status_kept();
        }
        let value = am.load(memory, &self.registers);
        let res = value << 1u8;
        proof {
            lemma_shift_left(value);
            lemma_bit_tests(value);
        }
        am.store(memory, &mut self.registers, res);
        self.registers.p.set(CARRY, value & 0x80 != 0);
        self.check_zero_or_negative(res);
        res
    }

    /// Branch if carry clear.
    pub fn bcc<B: Bus>(&mut self, am: AddressingMode, memory: &mut B)
        requires
            old(self).wf(),
            old(memory).inv(),
            am.has_address(),
        ensures
            final(self).wf(),
            final(memory).inv(),
            (final(self)@, final(memory)@) == on_registers(
                old(self)@,
                semantics::branch::<B>(
                    old(self)@.registers,
                    old(memory)@,
                    am,
                    !registers::has_flag(old(self)@.registers.p, CARRY),
                ),
            ),
    {
        if !self.registers.p.contains(CARRY) {
            let addr = am.effective_address(memory, &self.registers);
            self.registers.pc = addr;
        }
    }

    /// Branch if carry set.
    pub fn bcs<B: Bus>(&mut self, am: AddressingMode, memory: &mut B)
        requires
            old(self).wf(),
            old(memory).inv(),
            am.has_address(),
        ensures
            final(self).wf(),
            final(memory).inv(),
            (final(self)@, final(memory)@) == on_registers(
                old(self)@,
                semantics::branch::<B>(
                    old(self)@.registers,
                    old(memory)@,
                    am,
                    registers::has_flag(old(self)@.registers.p, CARRY),
                ),
            ),
    {
        if self.registers.p.contains(CARRY) {
            let addr = am.effective_address(memory, &self.registers);
            self.registers.pc = addr;
        }
    }

    /// Branch if equal.
    pub fn beq<B: Bus>(&mut self, am: AddressingMode, memory: &mut B)
        requires
            old(self).wf(),
            old(memory).inv(),
            am.has_address(),
        ensures
            final(self).wf(),
            final(memory).inv(),
            (final(self)@, final(memory)@) == on_registers(
                old(self)@,
                semantics::branch::<B>(
                    old(self)@.registers,
                    old(memory)@,
                    am,
                    registers::has_flag(old(self)@.registers.p, ZERO),
                ),
            ),
    {
        if self.registers.p.contains(ZERO) {
            let addr = am.effective_address(memory, &self.registers);
            self.registers.pc = addr;
        }
    }

    /// Bit test.
    pub fn bit<B: Bus>(&mut self, am: AddressingMode, memory: &mut B)
        requires
            old(self).wf(),
            old(memory).inv(),
            am.can_load(),
        ensures
            final(self).wf(),
            final(memory).inv(),
            (final(self)@, final(memory)@) == on_registers(
                old(self)@,
                semantics::bit::<B>(old(self)@.registers, old(memory)@, am),
            ),
    {
        proof {
            lemma_live_status_kept();
        }
        let value = am.load(memory, &self.registers);
        let res = self.registers.a & value;
        proof {
            lemma_bit_tests(value);
        }
        self.registers.p.set(ZERO, res == 0);
        self.registers.p.set(OVERFLOW, value & 0x40 != 0);
        self.registers.p.set(NEGATIVE, value & 0x80 != 0);
    }

    /// Branch if minus.
    pub fn bmi<B: Bus>(&mut self, am: AddressingMode, memory: &mut B)
        requires
            old(self).wf(),
            old(memory).inv(),
            am.has_address(),
        ensures
            final(self).wf(),
            final(memory).inv(),
            (final(self)@, final(memory)@) == on_registers(
                old(self)@,
                semantics::branch::<B>(
                    old(self)@.registers,
                    old(memory)@,
                    am,
                    registers::has_flag(old(self)@.registers.p, NEGATIVE),
                ),
            ),
    {
        if self.registers.p.contains(NEGATIVE) {
            let addr = am.effective_address(memory, &self.registers);
            self.registers.pc = addr;
        }
    }

    /// Branch if not equal.
    pub fn bne<B: Bus>(&mut self, am: AddressingMode, memory: &mut B)
        requires
            old(self).wf(),
            old(memory).inv(),
            am.has_address(),
        ensures
            final(self).wf(),
            final(memory).inv(),
            (final(self)@, final(memory)@) == on_registers(
                old(self)@,
                semantics::branch::<B>(
                    old(self)@.registers,
                    old(memory)@,
                    am,
                    !registers::has_flag(old(self)@.registers.p, ZERO),
                ),
            ),
    {
        if !self.registers.p.contains(ZERO) {
            let addr = am.effective_address(memory, &self.registers);
            self.registers.pc = addr;
        }
    }

    /// Branch if plus.
    pub fn bpl<B: Bus>(&mut self, am: AddressingMode, memory: &mut B)
        requires
            old(self).wf(),
            old(memory).inv(),
            am.has_address(),
        ensures
            final(self).wf(),
            final(memory).inv(),
            (final(self)@, final(memory)@) == on_registers(
                old(self)@,
                semantics::branch::<B>(
                    old(self)@.registers,
                    old(memory)@,
                    am,
                    !registers::has_flag(old(self)@.registers.p, NEGATIVE),
                ),
            ),
    {
        if !self.registers.p.contains(NEGATIVE) {
            let addr = am.effective_address(memory, &self.registers);
            self.registers.pc = addr;
        }
    }

    /// Force an interrupt.
    pub fn brk<B: Bus>(&mut self, memory: &mut B)
        requires
            old(self).wf(),
            old(memory).inv(),
        ensures
            final(self).wf(),
            final(memory).inv(),
            (final(self)@, final(memory)@) == semantics::interrupted::<B>(
                old(self)@,
                old(memory)@,
                IRQ_VECTOR,
                true,
            ),
    {
        self.interrupt(memory, Address(IRQ_VECTOR), true);
    }

    /// Branch if overflow clear.
    pub fn bvc<B: Bus>(&mut self, am: AddressingMode, memory: &mut B)
        requires
            old(self).wf(),
            old(memory).inv(),
            am.has_address(),
        ensures
            final(self).wf(),
            final(memory).inv(),
            (final(self)@, final(memory)@) == on_registers(
                old(self)@,
                semantics::branch::<B>(
                    old(self)@.registers,
                    old(memory)@,
                    am,
                    !registers::has_flag(old(self)@.registers.p, OVERFLOW),
                ),
            ),
    {
        if !self.registers.p.contains(OVERFLOW) {
            let addr = am.effective_address(memory, &self.registers);
            self.registers.pc = addr;
        }
    }

    /// Branch if overflow set.
    pub fn bvs<B: Bus>(&mut self, am: AddressingMode, memory: &mut B)
        requires
            old(self).wf(),
            old(memory).inv(),
            am.has_address(),
        ensures
            final(self).wf(),
            final(memory).inv(),
            (final(self)@, final(memory)@) == on_registers(
                old(self)@,
                semantics::branch::<B>(
                    old(self)@.registers,
                    old(memory)@,
                    am,
                    registers::has_flag(old(self)@.registers.p, OVERFLOW),
                ),
            ),
    {
        if self.registers.p.contains(OVERFLOW) {
            let addr = am.effective_address(memory, &self.registers);
            self.registers.pc = addr;
        }
    }

    /// Clear the carry flag.
    pub fn clc(&mut self)
        requires
            old(self).wf(),
        ensures
            final(self).wf(),
            final(self)@ == (CpuState {
                registers: semantics::flag_changed(old(self)@.registers, CARRY, false),
                ..old(self)@
            }),
    {
        self.change_flag(CARRY, false);
    }

    /// Clear decimal mode.
    pub fn cld(&mut self)
        requires
            old(self).wf(),
        ensures
            final(self).wf(),
            final(self)@ == (CpuState {
                registers: semantics::flag_changed(old(self)@.registers, DECIMAL, false),
                ..old(self)@
            }),
    {
        self.change_flag(DECIMAL, false);
    }

    /// Clear interrupt disable.
    pub fn cli(&mut self)
        requires
            old(self).wf(),
        ensures
            final(self).wf(),
            final(self)@ == (CpuState {
                registers: semantics::flag_changed(old(self)@.registers, INTERRUPT_DISABLE, false),
                ..old(self)@
            }),
    {
        self.change_flag(INTERRUPT_DISABLE, false);
    }

    /// Clear the overflow flag.
    pub fn clv(&mut self)
        requires
            old(self).wf(),
        ensures
            final(self).wf(),
            final(self)@ == (CpuState {
                registers: semantics::flag_changed(old(self)@.registers, OVERFLOW, false),
                ..old(self)@
            }),
    {
        self.change_flag(OVERFLOW, false);
    }

    /// Compare with the accumulator.
    pub fn cmp<B: Bus>(&mut self, am: AddressingMode, memory: &mut B)
        requires
            old(self).wf(),
            old(memory).inv(),
            am.can_load(),
        ensures
            final(self).wf(),
            final(memory).inv(),
            (final(self)@, final(memory)@) == on_registers(
                old(self)@,
                semantics::compare::<B>(
                    old(self)@.registers,
                    old(memory)@,
                    am,
                    old(self)@.registers.a,
                ),
            ),
    {
        proof {
            lemma_live_status_kept();
        }
        let value = am.load(memory, &self.registers);
        let register = self.registers.a;
        self.set_compared(register, value);
    }

    /// Compare with the X register.
    pub fn cpx<B: Bus>(&mut self, am: AddressingMode, memory: &mut B)
        requires
            old(self).wf(),
            old(memory).inv(),
            am.can_load(),
        ensures
            final(self).wf(),
            final(memory).inv(),
            (final(self)@, final(memory)@) == on_registers(
                old(self)@,
                semantics::compare::<B>(
                    old(self)@.registers,
                    old(memory)@,
                    am,
                    old(self)@.registers.x,
                ),
            ),
    {
        proof {
            lemma_live_status_kept();
        }
        let value = am.load(memory, &self.registers);
        let register = self.registers.x;
        self.set_compared(register, value);
    }

    /// Compare with the Y register.
    pub fn cpy<B: Bus>(&mut self, am: AddressingMode, memory: &mut B)
        requires
            old(self).wf(),
            old(memory).inv(),
            am.can_load(),
        ensures
            final(self).wf(),
            final(memory).inv(),
            (final(self)@, final(memory)@) == on_registers(
                old(self)@,
                semantics::compare::<B>(
                    old(self)@.registers,
                    old(memory)@,
                    am,
                    old(self)@.registers.y,
                ),
            ),
    {
        proof {
            lemma_live_status_kept();
        }
        let value = am.load(memory, &self.registers);
        let register = self.registers.y;
        self.set_compared(register, value);
    }

    /// Decrement memory. The result is the value written.
    pub fn dec<B: Bus>(&mut self, am: AddressingMode, memory: &mut B) -> (written: u8)
        requires
            old(self).wf(),
            old(memory).inv(),
            am.can_store(),
        ensures
            final(self).wf(),
            final(memory).inv(),
            (final(self)@, final(memory)@) == on_registers(
                old(self)@,
                semantics::dec::<B>(old(self)@.registers, old(memory)@, am),
            ),
            written == semantics::moved(am.operand_of::<B>(old(self)@.registers, old(memory)@).0, -1),
    {
        proof {
            lemma_live_status_kept();
        }
        let value = decremented(am.load(memory, &self.registers));
        am.store(memory, &mut self.registers, value);
        self.check_zero_or_negative(value);
        value
    }

    /// Decrement the X register.
    pub fn dex(&mut self)
        requires
            old(self).wf(),
        ensures
            final(self).wf(),
            final(self)@ == (CpuState {
                registers: semantics::stepped_x(old(self)@.registers, -1),
                ..old(self)@
            }),
    {
        proof {
            lemma_live_status_kept();
        }
        self.registers.x = decremented(self.registers.x);
        let res = self.registers.x;
        self.check_zero_or_negative(res);
    }

    /// Decrement the Y register.
    pub fn dey(&mut self)
        requires
            old(self).wf(),
        ensures
            final(self).wf(),
            final(self)@ == (CpuState {
                registers: semantics::stepped_y(old(self)@.registers, -1),
                ..old(self)@
            }),
    {
        proof {
            lemma_live_status_kept();
        }
        self.registers.y = decremented(self.registers.y);
        let res = self.registers.y;
        self.check_zero_or_negative(res);
    }

    /// Exclusive OR.
    pub fn eor<B: Bus>(&mut self, am: AddressingMode, memory: &mut B)
        requires
            old(self).wf(),
            old(memory).inv(),
            am.can_load(),
        ensures
            final(self).wf(),
            final(memory).inv(),
            (final(self)@, final(memory)@) == on_registers(
                old(self)@,
                semantics::eor::<B>(old(self)@.registers, old(memory)@, am),
            ),
    {
        let value = am.load(memory, &self.registers);
        self.eor_value(value);
    }

    /// Increment memory. The result is the value written.
    pub fn inc<B: Bus>(&mut self, am: AddressingMode, memory: &mut B) -> (written: u8)
        requires
            old(self).wf(),
            old(memory).inv(),
            am.can_store(),
        ensures
            final(self).wf(),
            final(memory).inv(),
            (final(self)@, final(memory)@) == on_registers(
                old(self)@,
                semantics::inc::<B>(old(self)@.registers, old(memory)@, am),
            ),
            written == semantics::moved(am.operand_of::<B>(old(self)@.registers, old(memory)@).0, 1),
    {
        proof {
            lemma_live_status_kept();
        }
        let value = incremented(am.load(memory, &self.registers));
        am.store(memory, &mut self.registers, value);
        self.check_zero_or_negative(value);
        value
    }

    /// Increment the X register.
    pub fn inx(&mut self)
        requires
            old(self).wf(),
        ensures
            final(self).wf(),
            final(self)@ == (CpuState {
                registers: semantics::stepped_x(old(self)@.registers, 1),
                ..old(self)@
            }),
    {
        proof {
            lemma_live_status_kept();
        }
        self.registers.x = incremented(self.registers.x);
        let res = self.registers.x;
        self.check_zero_or_negative(res);
    }

    /// Increment the Y register.
    pub fn iny(&mut self)
        requires
            old(self).wf(),
        ensures
            final(self).wf(),
            final(self)@ == (CpuState {
                registers: semantics::stepped_y(old(self)@.registers, 1),
                ..old(self)@
            }),
    {
        proof {
            lemma_live_status_kept();
        }
        self.registers.y = incremented(self.registers.y);
        let res = self.registers.y;
        self.check_zero_or_negative(res);
    }

    /// Jump.
    pub fn jmp<B: Bus>(&mut self, am: AddressingMode, memory: &mut B)
        requires
            old(self).wf(),
            old(memory).inv(),
            am.has_address(),
        ensures
            final(self).wf(),
            final(memory).inv(),
            (final(self)@, final(memory)@) == on_registers(
                old(self)@,
                semantics::jmp::<B>(old(self)@.registers, old(memory)@, am),
            ),
    {
        self.registers.pc = am.effective_address(memory, &self.registers);
    }

    /// Jump to subroutine.
    pub fn jsr<B: Bus>(&mut self, am: AddressingMode, memory: &mut B)
        requires
            old(self).wf(),
            old(memory).inv(),
            am.has_address(),
        ensures
            final(self).wf(),
            final(memory).inv(),
            (final(self)@, final(memory)@) == on_registers(
                old(self)@,
                semantics::jsr::<B>(old(self)@.registers, old(memory)@, am),
            ),
    {
        let bytes = (self.registers.pc - 1u8).to_le_bytes();
        self.push_stack(memory, bytes[1]);
        self.push_stack(memory, bytes[0]);
        self.registers.pc = am.effective_address(memory, &self.registers);
    }

    /// Load the accumulator.
    pub fn lda<B: Bus>(&mut self, am: AddressingMode, memory: &mut B)
        requires
            old(self).wf(),
            old(memory).inv(),
            am.can_load(),
        ensures
            final(self).wf(),
            final(memory).inv(),
            (final(self)@, final(memory)@) == on_registers(
                old(self)@,
                semantics::lda::<B>(old(self)@.registers, old(memory)@, am),
            ),
    {
        proof {
            lemma_live_status_kept();
        }
        let value = am.load(memory, &self.registers);
        self.registers.a = value;
        self.check_zero_or_negative(value);
    }

    /// Load the X register.
    pub fn ldx<B: Bus>(&mut self, am: AddressingMode, memory: &mut B)
        requires
            old(self).wf(),
            old(memory).inv(),
            am.can_load(),
        ensures
            final(self).wf(),
            final(memory).inv(),
            (final(self)@, final(memory)@) == on_registers(
                old(self)@,
                semantics::ldx::<B>(old(self)@.registers, old(memory)@, am),
            ),
    {
        proof {
            lemma_live_status_kept();
        }
        let value = am.load(memory, &self.registers);
        self.registers.x = value;
        self.check_zero_or_negative(value);
    }

    /// Load the Y register.
    pub fn ldy<B: Bus>(&mut self, am: AddressingMode, memory: &mut B)
        requires
            old(self).wf(),
            old(memory).inv(),
            am.can_load(),
        ensures
            final(self).wf(),
            final(memory).inv(),
            (final(self)@, final(memory)@) == on_registers(
                old(self)@,
                semantics::ldy::<B>(old(self)@.registers, old(memory)@, am),
            ),
    {
        proof {
            lemma_live_status_kept();
        }
        let value = am.load(memory, &self.registers);
        self.registers.y = value;
        self.check_zero_or_negative(value);
    }

    /// Logical shift right. The result is the value written.
    pub fn lsr<B: Bus>(&mut self, am: AddressingMode, memory: &mut B) -> (written: u8)
        requires
            old(self).wf(),
            old(memory).inv(),
            am.can_store(),
        ensures
            final(self).wf(),
            final(memory).inv(),
            (final(self)@, final(memory)@) == on_registers(
                old(self)@,
                semantics::lsr::<B>(old(self)@.registers, old(memory)@, am),
            ),
            written == semantics::halved(am.operand_of::<B>(old(self)@.registers, old(memory)@).0),
    {
        proof {
            lemma_live_status_kept();
        }
        let value = am.load(memory, &self.registers);
        let res = value >> 1u8;
        proof {
            lemma_shift_right(value, 0);
            lemma_bit_tests(value);
        }
        am.store(memory, &mut self.registers, res);
        self.registers.p.set(CARRY, value & 0x01 != 0);
        self.check_zero_or_negative(res);
        res
    }

    /// No operation. An operand, where there is one, is read and dropped.
    pub fn nop<B: Bus>(&mut self, am: AddressingMode, memory: &mut B)
        requires
            old(self).wf(),
            old(memory).inv(),
        ensures
            final(self).wf(),
            final(memory).inv(),
            (final(self)@, final(memory)@) == on_registers(
                old(self)@,
                semantics::nop::<B>(old(self)@.registers, old(memory)@, am),
            ),
    {
        match am {
            AddressingMode::Implicit => {},
            _ => {
                let _ = am.load(memory, &self.registers);
            },
        }
    }

    /// Logical inclusive OR.
    pub fn ora<B: Bus>(&mut self, am: AddressingMode, memory: &mut B)
        requires
            old(self).wf(),
            old(memory).inv(),
            am.can_load(),
        ensures
            final(self).wf(),
            final(memory).inv(),
            (final(self)@, final(memory)@) == on_registers(
                old(self)@,
                semantics::ora::<B>(old(self)@.registers, old(memory)@, am),
            ),
    {
        let value = am.load(memory, &self.registers);
        self.or_value(value);
    }

    /// Push the accumulator.
    pub fn pha<B: Bus>(&mut self, memory: &mut B)
        requires
            old(self).wf(),
            old(memory).inv(),
        ensures
            final(self).wf(),
            final(memory).inv(),
            (final(self)@, final(memory)@) == on_registers(
                old(self)@,
                semantics::pushed::<B>(old(self)@.registers, old(memory)@, old(self)@.registers.a),
            ),
    {
        let value = self.registers.a;
        self.push_stack(memory, value);
    }

    /// Push the processor status.
    pub fn php<B: Bus>(&mut self, memory: &mut B)
        requires
            old(self).wf(),
            old(memory).inv(),
        ensures
            final(self).wf(),
            final(memory).inv(),
            (final(self)@, final(memory)@) == on_registers(
                old(self)@,
                semantics::php::<B>(old(self)@.registers, old(memory)@),
            ),
    {
        proof {
            lemma_live_status_kept();
        }
        let mut flags = self.registers.p;
        flags.insert(UNUSED);
        flags.insert(BREAK);
        self.push_stack(memory, flags.bits());
    }

    /// Pull the accumulator.
    pub fn pla<B: Bus>(&mut self, memory: &mut B)
        requires
            old(self).wf(),
            old(memory).inv(),
        ensures
            final(self).wf(),
            final(memory).inv(),
            (final(self)@, final(memory)@) == on_registers(
                old(self)@,
                semantics::pla::<B>(old(self)@.registers, old(memory)@),
            ),
    {
        proof {
            lemma_live_status_kept();
        }
        self.registers.a = self.pull_stack(memory);
        let res = self.registers.a;
        self.check_zero_or_negative(res);
    }

    /// Pull the processor status.
    pub fn plp<B: Bus>(&mut self, memory: &mut B)
        requires
            old(self).wf(),
            old(memory).inv(),
        ensures
            final(self).wf(),
            final(memory).inv(),
            (final(self)@, final(memory)@) == on_registers(
                old(self)@,
                semantics::pulled_flags::<B>(old(self)@.registers, old(memory)@),
            ),
    {
        self.pull_flags(memory);
    }

    /// Rotate left. The result is the value written.
    pub fn rol<B: Bus>(&mut self, am: AddressingMode, memory: &mut B) -> (written: u8)
        requires
            old(self).wf(),
            old(memory).inv(),
            am.can_store(),
        ensures
            final(self).wf(),
            final(memory).inv(),
            (final(self)@, final(memory)@) == on_registers(
                old(self)@,
                semantics::rol::<B>(old(self)@.registers, old(memory)@, am),
            ),
            written == semantics::rotated_left(
                am.operand_of::<B>(old(self)@.registers, old(memory)@).0,
                old(self)@.registers.p,
            ),
    {
        proof {
            lemma_live_status_kept();
        }
        let value = am.load(memory, &self.registers);
        // The carry is rotated into bit 0, and bit 7 out into the carry.
        let old_carry: u8 = if self.registers.p.contains(CARRY) {
            1
        } else {
            0
        };
        let new_carry = value & 0x80 != 0;
        let res = (value << 1u8) | old_carry;
        proof {
            lemma_rotate_left(value, old_carry);
            lemma_bit_tests(value);
        }
        am.store(memory, &mut self.registers, res);
        self.registers.p.set(CARRY, new_carry);
        self.check_zero_or_negative(res);
        res
    }

    /// Rotate right. The result is the value written.
    pub fn ror<B: Bus>(&mut self, am: AddressingMode, memory: &mut B) -> (written: u8)
        requires
            old(self).wf(),
            old(memory).inv(),
            am.can_store(),
        ensures
            final(self).wf(),
            final(memory).inv(),
            (final(self)@, final(memory)@) == on_registers(
                old(self)@,
                semantics::ror::<B>(old(self)@.registers, old(memory)@, am),
            ),
            written == semantics::rotated_right(
                am.operand_of::<B>(old(self)@.registers, old(memory)@).0,
                old(self)@.registers.p,
            ),
    {
        proof {
            lemma_live_status_kept();
        }
        let value = am.load(memory, &self.registers);
        // The carry is rotated into bit 7, and bit 0 out into the carry.
        let old_carry: u8 = if self.registers.p.contains(CARRY) {
            1
        } else {
            0
        };
        let new_carry = value & 0x01 != 0;
        let res = (value >> 1u8) | (old_carry << 7u8);
        proof {
            lemma_shift_right(value, old_carry);
            lemma_bit_tests(value);
        }
        am.store(memory, &mut self.registers, res);
        self.registers.p.set(CARRY, new_carry);
        self.check_zero_or_negative(res);
        res
    }

    /// Return from interrupt.
    pub fn rti<B: Bus>(&mut self, memory: &mut B)
        requires
            old(self).wf(),
            old(memory).inv(),
        ensures
            final(self).wf(),
            final(memory).inv(),
            (final(self)@, final(memory)@) == on_registers(
                old(self)@,
                semantics::rti::<B>(old(self)@.registers, old(memory)@),
            ),
    {
        self.pull_flags(memory);
        let low = self.pull_stack(memory);
        let high = self.pull_stack(memory);
        self.registers.pc = Address::from_le_bytes(low, high);
    }

    /// Return from subroutine.
    pub fn rts<B: Bus>(&mut self, memory: &mut B)
        requires
            old(self).wf(),
            old(memory).inv(),
        ensures
            final(self).wf(),
            final(memory).inv(),
            (final(self)@, final(memory)@) == on_registers(
                old(self)@,
                semantics::rts::<B>(old(self)@.registers, old(memory)@),
            ),
    {
        let low = self.pull_stack(memory);
        let high = self.pull_stack(memory);
        self.registers.pc = Address::from_le_bytes(low, high) + 1u8;
    }

    /// Subtract with carry.
    pub fn sbc<B: Bus>(&mut self, am: AddressingMode, memory: &mut B)
        requires
            old(self).wf(),
            old(memory).inv(),
            am.can_load(),
        ensures
            final(self).wf(),
            final(memory).inv(),
            (final(self)@, final(memory)@) == on_registers(
                old(self)@,
                semantics::sbc::<B>(old(self)@.registers, old(memory)@, am),
            ),
    {
        let value = am.load(memory, &self.registers);
        self.subtract_value(value);
    }

    /// Set the carry flag.
    pub fn sec(&mut self)
        requires
            old(self).wf(),
        ensures
            final(self).wf(),
            final(self)@ == (CpuState {
                registers: semantics::flag_changed(old(self)@.registers, CARRY, true),
                ..old(self)@
            }),
    {
        self.change_flag(CARRY, true);
    }

    /// Set the decimal flag.
    pub fn sed(&mut self)
        requires
            old(self).wf(),
        ensures
            final(self).wf(),
            final(self)@ == (CpuState {
                registers: semantics::flag_changed(old(self)@.registers, DECIMAL, true),
                ..old(self)@
            }),
    {
        self.change_flag(DECIMAL, true);
    }

    /// Set interrupt disable.
    pub fn sei(&mut self)
        requires
            old(self).wf(),
        ensures
            final(self).wf(),
            final(self)@ == (CpuState {
                registers: semantics::flag_changed(old(self)@.registers, INTERRUPT_DISABLE, true),
                ..old(self)@
            }),
    {
        self.change_flag(INTERRUPT_DISABLE, true);
    }

    /// Store the accumulator.
    pub fn sta<B: Bus>(&mut self, am: AddressingMode, memory: &mut B)
        requires
            old(self).wf(),
            old(memory).inv(),
            am.can_store(),
        ensures
            final(self).wf(),
            final(memory).inv(),
            (final(self)@, final(memory)@) == on_registers(
                old(self)@,
                am.after_store::<B>(old(self)@.registers, old(memory)@, old(self)@.registers.a),
            ),
    {
        let value = self.registers.a;
        am.store(memory, &mut self.registers, value);
    }

    /// Store the X register.
    pub fn stx<B: Bus>(&mut self, am: AddressingMode, memory: &mut B)
        requires
            old(self).wf(),
            old(memory).inv(),
            am.can_store(),
        ensures
            final(self).wf(),
            final(memory).inv(),
            (final(self)@, final(memory)@) == on_registers(
                old(self)@,
                am.after_store::<B>(old(self)@.registers, old(memory)@, old(self)@.registers.x),
            ),
    {
        let value = self.registers.x;
        am.store(memory, &mut self.registers, value);
    }

    /// Store the Y register.
    pub fn sty<B: Bus>(&mut self, am: AddressingMode, memory: &mut B)
        requires
            old(self).wf(),
            old(memory).inv(),
            am.can_store(),
        ensures
            final(self).wf(),
            final(memory).inv(),
            (final(self)@, final(memory)@) == on_registers(
                old(self)@,
                am.after_store::<B>(old(self)@.registers, old(memory)@, old(self)@.registers.y),
            ),
    {
        let value = self.registers.y;
        am.store(memory, &mut self.registers, value);
    }

    /// Transfer the accumulator to X.
    pub fn tax(&mut self)
        requires
            old(self).wf(),
        ensures
            final(self).wf(),
            final(self)@ == (CpuState {
                registers: RegisterFile {
                    x: old(self)@.registers.a,
                    ..semantics::transferred(old(self)@.registers, old(self)@.registers.a)
                },
                ..old(self)@
            }),
    {
        proof {
            lemma_live_status_kept();
        }
        let value = self.registers.a;
        self.registers.x = value;
        self.check_zero_or_negative(value);
    }

    /// Transfer the accumulator to Y.
    pub fn tay(&mut self)
        requires
            old(self).wf(),
        ensures
            final(self).wf(),
            final(self)@ == (CpuState {
                registers: RegisterFile {
                    y: old(self)@.registers.a,
                    ..semantics::transferred(old(self)@.registers, old(self)@.registers.a)
                },
                ..old(self)@
            }),
    {
        proof {
            lemma_live_status_kept();
        }
        let value = self.registers.a;
        self.registers.y = value;
        self.check_zero_or_negative(value);
    }

    /// Transfer the stack pointer to X.
    pub fn tsx(&mut self)
        requires
            old(self).wf(),
        ensures
            final(self).wf(),
            final(self)@ == (CpuState {
                registers: RegisterFile {
                    x: old(self)@.registers.s,
                    ..semantics::transferred(old(self)@.registers, old(self)@.registers.s)
                },
                ..old(self)@
            }),
    {
        proof {
            lemma_live_status_kept();
        }
        let value = self.registers.s;
        self.registers.x = value;
        self.check_zero_or_negative(value);
    }

    /// Transfer X to the accumulator.
    pub fn txa(&mut self)
        requires
            old(self).wf(),
        ensures
            final(self).wf(),
            final(self)@ == (CpuState {
                registers: RegisterFile {
                    a: old(self)@.registers.x,
                    ..semantics::transferred(old(self)@.registers, old(self)@.registers.x)
                },
                ..old(self)@
            }),
    {
        proof {
            lemma_live_status_kept();
        }
        let value = self.registers.x;
        self.registers.a = value;
        self.check_zero_or_negative(value);
    }

    /// Transfer X to the stack pointer. No flag changes.
    pub fn txs(&mut self)
        requires
            old(self).wf(),
        ensures
            final(self).wf(),
            final(self)@ == (CpuState {
                registers: RegisterFile { s: old(self)@.registers.x, ..old(self)@.registers },
                ..old(self)@
            }),
    {
        self.registers.s = self.registers.x;
    }

    /// Transfer Y to the accumulator.
    pub fn tya(&mut self)
        requires
            old(self).wf(),
        ensures
            final(self).wf(),
            final(self)@ == (CpuState {
                registers: RegisterFile {
                    a: old(self)@.registers.y,
                    ..semantics::transferred(old(self)@.registers, old(self)@.registers.y)
                },
                ..old(self)@
            }),
    {
        proof {
            lemma_live_status_kept();
        }
        let value = self.registers.y;
        self.registers.a = value;
        self.check_zero_or_negative(value);
    }

    /// Undocumented: decrement memory, then compare with the value written.
    pub fn undoc_dcp<B: Bus>(&mut self, am: AddressingMode, memory: &mut B)
        requires
            old(self).wf(),
            old(memory).inv(),
            am.can_store(),
        ensures
            final(self).wf(),
            final(memory).inv(),
            (final(self)@, final(memory)@) == on_registers(
                old(self)@,
                semantics::dcp::<B>(old(self)@.registers, old(memory)@, am),
            ),
    {
        proof {
            lemma_live_status_kept();
        }
        let written = self.dec(am, memory);
        let register = self.registers.a;
        self.set_compared(register, written);
    }

    /// Undocumented: increment memory, then subtract the value written.
    pub fn undoc_isb<B: Bus>(&mut self, am: AddressingMode, memory: &mut B)
        requires
            old(self).wf(),
            old(memory).inv(),
            am.can_store(),
        ensures
            final(self).wf(),
            final(memory).inv(),
            (final(self)@, final(memory)@) == on_registers(
                old(self)@,
                semantics::isb::<B>(old(self)@.registers, old(memory)@, am),
            ),
    {
        let written = self.inc(am, memory);
        self.subtract_value(written);
    }

    /// Undocumented: load the accumulator and X with the operand, read once.
    pub fn undoc_lax<B: Bus>(&mut self, am: AddressingMode, memory: &mut B)
        requires
            old(self).wf(),
            old(memory).inv(),
            am.can_load(),
        ensures
            final(self).wf(),
            final(memory).inv(),
            (final(self)@, final(memory)@) == on_registers(
                old(self)@,
                semantics::lax::<B>(old(self)@.registers, old(memory)@, am),
            ),
    {
        proof {
            lemma_live_status_kept();
        }
        let value = am.load(memory, &self.registers);
        self.registers.a = value;
        self.registers.x = value;
        self.check_zero_or_negative(value);
    }

    /// Undocumented: rotate memory left, then AND with the value written.
    pub fn undoc_rla<B: Bus>(&mut self, am: AddressingMode, memory: &mut B)
        requires
            old(self).wf(),
            old(memory).inv(),
            am.can_store(),
        ensures
            final(self).wf(),
            final(memory).inv(),
            (final(self)@, final(memory)@) == on_registers(
                old(self)@,
                semantics::rla::<B>(old(self)@.registers, old(memory)@, am),
            ),
    {
        let written = self.rol(am, memory);
        self.and_value(written);
    }

    /// Undocumented: rotate memory right, then add the value written.
    pub fn undoc_rra<B: Bus>(&mut self, am: AddressingMode, memory: &mut B)
        requires
            old(self).wf(),
            old(memory).inv(),
            am.can_store(),
        ensures
            final(self).wf(),
            final(memory).inv(),
            (final(self)@, final(memory)@) == on_registers(
                old(self)@,
                semantics::rra::<B>(old(self)@.registers, old(memory)@, am),
            ),
    {
        let written = self.ror(am, memory);
        self.add_value(written);
    }

    /// Undocumented: store the AND of the accumulator and the X register.
    pub fn undoc_sax<B: Bus>(&mut self, am: AddressingMode, memory: &mut B)
        requires
            old(self).wf(),
            old(memory).inv(),
            am.can_store(),
        ensures
            final(self).wf(),
            final(memory).inv(),
            (final(self)@, final(memory)@) == on_registers(
                old(self)@,
                am.after_store::<B>(
                    old(self)@.registers,
                    old(memory)@,
                    old(self)@.registers.a & old(self)@.registers.x,
                ),
            ),
    {
        let value = self.registers.a & self.registers.x;
        am.store(memory, &mut self.registers, value);
    }

    /// Undocumented: shift memory left, then OR with the value written.
    pub fn undoc_slo<B: Bus>(&mut self, am: AddressingMode, memory: &mut B)
        requires
            old(self).wf(),
            old(memory).inv(),
            am.can_store(),
        ensures
            final(self).wf(),
            final(memory).inv(),
            (final(self)@, final(memory)@) == on_registers(
                old(self)@,
                semantics::slo::<B>(old(self)@.registers, old(memory)@, am),
            ),
    {
        let written = self.asl(am, memory);
        self.or_value(written);
    }

    /// Undocumented: shift memory right, then exclusive-OR with the value written.
    pub fn undoc_sre<B: Bus>(&mut self, am: AddressingMode, memory: &mut B)
        requires
            old(self).wf(),
            old(memory).inv(),
            am.can_store(),
        ensures
            final(self).wf(),
            final(memory).inv(),
            (final(self)@, final(memory)@) == on_registers(
                old(self)@,
                semantics::sre::<B>(old(self)@.registers, old(memory)@, am),
            ),
    {
        let written = self.lsr(am, memory);
        self.eor_value(written);
    }
}

} // verus!
