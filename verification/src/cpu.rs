//! The CPU: one owned aggregate of program counter, memory, registers and
//! breakpoints, and the fetch operations that read the instruction stream.

use vstd::prelude::*;
use crate::breakpoints::Breakpoints;
use crate::fault::Fault;
use crate::memory::{spec_load_block, word_at, Memory, MEMORY_SIZE};
use crate::registers::{word, RegisterFile, REGISTER_COUNT};

verus! {

/// The last address of the address space.
pub const LAST_ADDRESS: u16 = 0xFFFF;

/// The emulated processor with everything it owns.
pub struct CPU {
    /// Address of the next instruction byte to fetch.
    pub pc: u16,
    pub memory: Memory,
    pub regs: RegisterFile,
    pub breakpoints: Breakpoints,
    /// Where the last image was loaded; `reset` returns the program counter
    /// to it.
    pub rom_base: u16,
    /// Number of instructions completed since the CPU was made. It stops
    /// counting at the largest value it can hold.
    pub instruction_count: u64,
}

/// The mathematical state of a CPU.
pub struct CpuView {
    pub pc: u16,
    pub memory: Seq<u8>,
    pub regs: Seq<u16>,
    pub breakpoints: Set<u16>,
    pub rom_base: u16,
    pub instruction_count: u64,
}

impl View for CPU {
    type V = CpuView;

    open spec fn view(&self) -> CpuView {
        CpuView {
            pc: self.pc,
            memory: self.memory@,
            regs: self.regs@,
            breakpoints: self.breakpoints@,
            rom_base: self.rom_base,
            instruction_count: self.instruction_count,
        }
    }
}

/// A transition of the machine that reads the instruction stream: the state
/// it leaves, and what it produced or why it failed.
pub struct Transition<T> {
    pub after: CpuView,
    pub result: Result<T, Fault>,
}

/// The byte `b` read as a signed number in two's complement.
pub open spec fn signed8(b: u8) -> i8 {
    if b < 0x80 {
        b as i8
    } else {
        (b - 0x100) as i8
    }
}

/// The word `w` read as a signed number in two's complement.
pub open spec fn signed16(w: u16) -> i16 {
    if w < 0x8000 {
        w as i16
    } else {
        (w - 0x10000) as i16
    }
}

impl CpuView {
    /// Whether this state has the full address space and register file, as
    /// the state of every `CPU` has.
    pub open spec fn wf(self) -> bool {
        &&& self.memory.len() == MEMORY_SIZE
        &&& self.regs.len() == REGISTER_COUNT
    }

    /// The state of a CPU that was just made.
    pub open spec fn initial() -> CpuView {
        CpuView {
            pc: 0,
            memory: Seq::new(MEMORY_SIZE as nat, |i: int| 0u8),
            regs: Seq::new(REGISTER_COUNT as nat, |i: int| 0u16),
            breakpoints: Set::empty(),
            rom_base: 0,
            instruction_count: 0,
        }
    }

    /// This state with the program counter at `pc`.
    pub open spec fn with_pc(self, pc: u16) -> CpuView {
        CpuView { pc, ..self }
    }

    /// This state with the registers `regs`.
    pub open spec fn with_regs(self, regs: Seq<u16>) -> CpuView {
        CpuView { regs, ..self }
    }

    /// Whether `width` bytes can be fetched: the program counter must still
    /// be an address after it has moved past them.
    pub open spec fn can_fetch(self, width: int) -> bool {
        self.pc + width <= LAST_ADDRESS
    }

    /// A fetch that succeeded with `value` after reading `width` bytes.
    pub open spec fn fetched<T>(self, width: int, value: T) -> Transition<T> {
        Transition { after: self.with_pc((self.pc + width) as u16), result: Ok(value) }
    }

    /// A transition that failed with `fault` and left this state.
    pub open spec fn failed<T>(self, fault: Fault) -> Transition<T> {
        Transition { after: self, result: Err(fault) }
    }

    /// A transition that produced `value` and left this state.
    pub open spec fn done<T>(self, value: T) -> Transition<T> {
        Transition { after: self, result: Ok(value) }
    }

    /// Fetching one byte: the byte at the program counter, which moves on by
    /// one. At the last address nothing is fetched and nothing changes.
    pub open spec fn fetch_u8(self) -> Transition<u8> {
        if self.can_fetch(1) {
            self.fetched(1, self.memory[self.pc as int])
        } else {
            self.failed(Fault::EndOfMemory { addr: self.pc })
        }
    }

    /// Fetching one little-endian word: low byte first, the program counter
    /// moves on by two. Where two bytes cannot be fetched nothing changes.
    pub open spec fn fetch_u16(self) -> Transition<u16> {
        if self.can_fetch(2) {
            self.fetched(2, word(self.memory[self.pc + 1], self.memory[self.pc as int]))
        } else {
            self.failed(Fault::EndOfMemory { addr: self.pc })
        }
    }

    /// Fetching one byte as a signed number.
    pub open spec fn fetch_s8(self) -> Transition<i8> {
        if self.can_fetch(1) {
            self.fetched(1, signed8(self.memory[self.pc as int]))
        } else {
            self.failed(Fault::EndOfMemory { addr: self.pc })
        }
    }

    /// Fetching one little-endian word as a signed number.
    pub open spec fn fetch_s16(self) -> Transition<i16> {
        if self.can_fetch(2) {
            self.fetched(2, signed16(word(self.memory[self.pc + 1], self.memory[self.pc as int])))
        } else {
            self.failed(Fault::EndOfMemory { addr: self.pc })
        }
    }

    /// The state after an image `data` was loaded at `offset`: memory holds
    /// the part of the image that fits, and the program counter and the image
    /// base are `offset`.
    pub open spec fn load_rom(self, data: Seq<u8>, offset: u16) -> CpuView {
        CpuView {
            pc: offset,
            rom_base: offset,
            memory: spec_load_block(self.memory, data, offset),
            ..self
        }
    }
}

impl CPU {
    /// A CPU with zeroed memory and registers, no breakpoints, and the
    /// program counter at address zero.
    pub fn new() -> (cpu: CPU)
        ensures
            cpu@ == CpuView::initial(),
    {
        CPU {
            pc: 0,
            memory: Memory::new(),
            regs: RegisterFile::new(),
            breakpoints: Breakpoints::new(),
            rom_base: 0,
            instruction_count: 0,
        }
    }

    /// Returns the program counter to the base of the loaded image. Nothing
    /// else changes.
    pub fn reset(&mut self)
        ensures
            final(self)@ == old(self)@.with_pc(old(self).rom_base),
    {
        self.pc = self.rom_base;
    }

    /// Loads `data` as an executable image at `offset`: copies as much of it
    /// as fits below the end of memory and points the program counter at it.
    pub fn load_rom(&mut self, data: &Vec<u8>, offset: u16)
        ensures
            final(self)@ == old(self)@.load_rom(data@, offset),
    {
        self.pc = offset;
        self.rom_base = offset;
        self.memory.load_block(data.as_slice(), offset);
    }

    /// Fetches the byte at the program counter.
    pub fn fetch_u8(&mut self) -> (r: Result<u8, Fault>)
        ensures
            r == old(self)@.fetch_u8().result,
            final(self)@ == old(self)@.fetch_u8().after,
    {
        if self.pc == LAST_ADDRESS {
            return Err(Fault::EndOfMemory { addr: self.pc });
        }
        let b = self.memory.read_u8(self.pc);
        self.pc = self.pc + 1;
        Ok(b)
    }

    /// Fetches the little-endian word at the program counter.
    pub fn fetch_u16(&mut self) -> (r: Result<u16, Fault>)
        ensures
            r == old(self)@.fetch_u16().result,
            final(self)@ == old(self)@.fetch_u16().after,
    {
        if self.pc >= LAST_ADDRESS - 1 {
            return Err(Fault::EndOfMemory { addr: self.pc });
        }
        let lo = self.memory.read_u8(self.pc);
        let hi = self.memory.read_u8(self.pc + 1);
        self.pc = self.pc + 2;
        proof {
            crate::registers::lemma_word_is_shift_or(hi, lo);
        }
        Ok((hi as u16) << 8 | lo as u16)
    }

    /// Fetches the byte at the program counter as a signed number.
    pub fn fetch_s8(&mut self) -> (r: Result<i8, Fault>)
        ensures
            r == old(self)@.fetch_s8().result,
            final(self)@ == old(self)@.fetch_s8().after,
    {
        match self.fetch_u8() {
            Ok(b) => Ok(to_signed8(b)),
            Err(fault) => Err(fault),
        }
    }

    /// Fetches the little-endian word at the program counter as a signed
    /// number.
    pub fn fetch_s16(&mut self) -> (r: Result<i16, Fault>)
        ensures
            r == old(self)@.fetch_s16().result,
            final(self)@ == old(self)@.fetch_s16().after,
    {
        match self.fetch_u16() {
            Ok(w) => Ok(to_signed16(w)),
            Err(fault) => Err(fault),
        }
    }

    /// The little-endian word that memory holds at `pos`.
    pub fn peek_u16_at(&self, pos: u16) -> (v: u16)
        ensures
            v == word_at(self.memory@, pos),
    {
        let lo = self.memory.read_u8(pos);
        let hi = self.memory.read_u8(pos.wrapping_add(1));
        proof {
            crate::registers::lemma_word_is_shift_or(hi, lo);
        }
        (hi as u16) << 8 | lo as u16
    }
}

/// The byte `b` as a signed number in two's complement.
pub fn to_signed8(b: u8) -> (v: i8)
    ensures
        v == signed8(b),
{
    if b < 0x80 {
        b as i8
    } else {
        (b as i16 - 0x100) as i8
    }
}

/// The word `w` as a signed number in two's complement.
pub fn to_signed16(w: u16) -> (v: i16)
    ensures
        v == signed16(w),
{
    if w < 0x8000 {
        w as i16
    } else {
        (w as i32 - 0x10000) as i16
    }
}

} // verus!
