//! The bus that the CPU drives, and the simplest device behind it.

use super::address::{le_word, wrap16, Address};
use vstd::prelude::*;

verus! {

/// A 16-bit address space that can be read and written one byte at a time.
///
/// What stands behind the bus is described by its view, a mathematical
/// model of the device, and by three functions of that model: the byte that
/// a load returns, the model after a load (a load may change a device, as a
/// read of a status register does), and the model after a store.
pub trait Bus: View {
    /// What must hold of the device for it to be used.
    spec fn inv(&self) -> bool;

    /// The byte that a load from `addr` returns.
    spec fn read(model: Self::V, addr: u16) -> u8;

    /// The device after a load from `addr`.
    spec fn after_read(model: Self::V, addr: u16) -> Self::V;

    /// The device after `value` was stored to `addr`.
    spec fn after_write(model: Self::V, addr: u16, value: u8) -> Self::V;

    /// Load the byte at `addr`.
    fn load(&mut self, addr: Address) -> (value: u8)
        requires
            old(self).inv(),
        ensures
            final(self).inv(),
            value == Self::read(old(self)@, addr.0),
            final(self)@ == Self::after_read(old(self)@, addr.0),
    ;

    /// Store `value` at `addr`.
    fn store(&mut self, addr: Address, value: u8)
        requires
            old(self).inv(),
        ensures
            final(self).inv(),
            final(self)@ == Self::after_write(old(self)@, addr.0, value),
    ;
}

/// The value and the device after a load from `addr`.
pub open spec fn read_byte_at<B: Bus>(model: B::V, addr: u16) -> (u8, B::V) {
    (B::read(model, addr), B::after_read(model, addr))
}

/// The little-endian word, and the device, after a load of its low byte
/// from `low_addr` followed by a load of its high byte from `high_addr`.
pub open spec fn read_word_at<B: Bus>(model: B::V, low_addr: u16, high_addr: u16) -> (u16, B::V) {
    let (low, after_low) = read_byte_at::<B>(model, low_addr);
    let (high, after_high) = read_byte_at::<B>(after_low, high_addr);
    (le_word(low, high), after_high)
}

/// The bytes, and the device, after `count` loads from consecutive
/// addresses that start at `start` and wrap at the end of the address space.
pub open spec fn read_range_at<B: Bus>(model: B::V, start: u16, count: nat) -> (Seq<u8>, B::V)
    decreases count,
{
    if count == 0 {
        (Seq::empty(), model)
    } else {
        let (bytes, before_last) = read_range_at::<B>(model, start, (count - 1) as nat);
        let (last, after_last) = read_byte_at::<B>(before_last, wrap16(start + count - 1));
        (bytes.push(last), after_last)
    }
}

/// The device after the bytes of `input` were stored to consecutive
/// addresses that start at `start` and wrap at the end of the address space.
pub open spec fn write_range_at<B: Bus>(model: B::V, start: u16, input: Seq<u8>) -> B::V
    decreases input.len(),
{
    if input.len() == 0 {
        model
    } else {
        B::after_write(
            write_range_at::<B>(model, start, input.drop_last()),
            wrap16(start + input.len() - 1),
            input.last(),
        )
    }
}

/// Load the little-endian word whose low byte is at `low_addr` and whose
/// high byte is at `high_addr`, in that order.
pub fn load_word<B: Bus>(memory: &mut B, low_addr: Address, high_addr: Address) -> (word: Address)
    requires
        old(memory).inv(),
    ensures
        final(memory).inv(),
        (word.0, final(memory)@) == read_word_at::<B>(old(memory)@, low_addr.0, high_addr.0),
{
    let low = memory.load(low_addr);
    let high = memory.load(high_addr);
    Address::from_le_bytes(low, high)
}

/// Fill `output` with the bytes loaded from consecutive addresses that
/// start at `start`.
pub fn load_range<B: Bus>(memory: &mut B, start: Address, output: &mut [u8])
    requires
        old(memory).inv(),
        old(output)@.len() <= 0x1_0000,
    ensures
        final(memory).inv(),
        (final(output)@, final(memory)@) == read_range_at::<B>(
            old(memory)@,
            start.0,
            old(output)@.len(),
        ),
{
    let count = output.len();
    let mut i: usize = 0;
    while i < count
        invariant
            memory.inv(),
            i <= count,
            count == output@.len(),
            count == old(output)@.len(),
            count <= 0x1_0000,
            (output@.take(i as int), memory@) == read_range_at::<B>(old(memory)@, start.0, i as nat),
        decreases count - i,
    {
        let ghost before = output@;
        let value = memory.load(start + i);
        output[i] = value;
        assert(output@.take(i + 1) =~= before.take(i as int).push(value));
        i += 1;
    }
    assert(output@.take(count as int) =~= output@);
}

/// Store the bytes of `input` to consecutive addresses that start at
/// `start`.
pub fn store_range<B: Bus>(memory: &mut B, start: Address, input: &[u8])
    requires
        old(memory).inv(),
        input@.len() <= 0x1_0000,
    ensures
        final(memory).inv(),
        final(memory)@ == write_range_at::<B>(old(memory)@, start.0, input@),
{
    let count = input.len();
    let mut i: usize = 0;
    while i < count
        invariant
            memory.inv(),
            i <= count,
            count == input@.len(),
            count <= 0x1_0000,
            memory@ == write_range_at::<B>(old(memory)@, start.0, input@.take(i as int)),
        decreases count - i,
    {
        memory.store(start + i, input[i]);
        assert(input@.take(i + 1).drop_last() =~= input@.take(i as int));
        i += 1;
    }
    assert(input@.take(count as int) =~= input@);
}

/// 64 KiB of plain memory that fills the whole address space.
pub type FlatMemory = [u8; 0x10000];

/// The whole address space as one array of plain memory: every location
/// holds what was last stored to it, and a load changes nothing.
impl Bus for [u8; 0x10000] {
    open spec fn inv(&self) -> bool {
        true
    }

    open spec fn read(model: Seq<u8>, addr: u16) -> u8 {
        model[addr as int]
    }

    open spec fn after_read(model: Seq<u8>, addr: u16) -> Seq<u8> {
        model
    }

    open spec fn after_write(model: Seq<u8>, addr: u16, value: u8) -> Seq<u8> {
        model.update(addr as int, value)
    }

    fn load(&mut self, addr: Address) -> (value: u8) {
        self[addr.as_usize()]
    }

    fn store(&mut self, addr: Address, value: u8) {
        self[addr.as_usize()] = value;
    }
}

} // verus!
