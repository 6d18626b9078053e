//! The flat address space: exactly 65,536 bytes, indexed by a 16-bit offset.

use vstd::prelude::*;

verus! {

/// Number of bytes in the address space.
pub const MEMORY_SIZE: usize = 0x10000;

/// The address space. Its view is the sequence of its bytes.
pub struct Memory {
    pub bytes: [u8; 0x10000],
}

impl View for Memory {
    type V = Seq<u8>;

    open spec fn view(&self) -> Seq<u8> {
        self.bytes@
    }
}

/// How many bytes of a block of `data_len` bytes fit at `base`.
pub open spec fn clipped_len(data_len: nat, base: u16) -> nat {
    if base + data_len > MEMORY_SIZE {
        (MEMORY_SIZE - base) as nat
    } else {
        data_len
    }
}

/// Memory after a block load: each address from `base` on holds the byte of
/// `data` that falls on it, as far as `data` and the address space reach;
/// every other address keeps its byte.
pub open spec fn spec_load_block(mem: Seq<u8>, data: Seq<u8>, base: u16) -> Seq<u8> {
    Seq::new(
        mem.len(),
        |i: int|
            if base <= i < base + data.len() {
                data[i - base]
            } else {
                mem[i]
            },
    )
}

/// The little-endian word at `addr`. The high byte of a word at the last
/// address is the byte at address zero.
pub open spec fn word_at(mem: Seq<u8>, addr: u16) -> u16 {
    crate::registers::word(mem[(addr + 1) % (MEMORY_SIZE as int)], mem[addr as int])
}

impl Memory {
    /// An address space of zero bytes.
    pub fn new() -> (m: Memory)
        ensures
            m@ == Seq::new(MEMORY_SIZE as nat, |i: int| 0u8),
    {
        Memory { bytes: [0u8;0x10000] }
    }

    /// The byte at `addr`.
    pub fn read_u8(&self, addr: u16) -> (v: u8)
        ensures
            v == self@[addr as int],
    {
        self.bytes[addr as usize]
    }

    /// Stores `value` at `addr`; no other byte changes.
    pub fn write_u8(&mut self, addr: u16, value: u8)
        ensures
            final(self)@ == old(self)@.update(addr as int, value),
    {
        self.bytes[addr as usize] = value;
    }

    /// Copies `data` into memory from `base_offset` on. Bytes that would fall
    /// beyond the last address are dropped. Returns the number of bytes copied.
    pub fn load_block(&mut self, data: &[u8], base_offset: u16) -> (copied: usize)
        ensures
            final(self)@ == spec_load_block(old(self)@, data@, base_offset),
            copied == clipped_len(data@.len(), base_offset),
    {
        let base: usize = base_offset as usize;
        let room: usize = MEMORY_SIZE - base;
        let count: usize = if data.len() < room {
            data.len()
        } else {
            room
        };
        let mut i: usize = 0;
        while i < count
            invariant
                i <= count,
                count <= data@.len(),
                base == base_offset,
                base + count <= MEMORY_SIZE,
                self@ == spec_load_block(old(self)@, data@.take(i as int), base_offset),
            decreases count - i,
        {
            self.bytes[base + i] = data[i];
            i += 1;
        }
        count
    }
}

} // verus!
