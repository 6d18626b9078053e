//! The register file: eight general and six segment registers of 16 bits,
//! four of which can also be addressed by their 8-bit halves.

use vstd::prelude::*;
use crate::fault::Fault;

verus! {

/// Accumulator, the first of the four byte-addressable registers.
pub const AX: usize = 0;

/// Count register.
pub const CX: usize = 1;

/// Data register.
pub const DX: usize = 2;

/// Base register, the last of the four byte-addressable registers.
pub const BX: usize = 3;

/// Stack pointer.
pub const SP: usize = 4;

/// Base pointer.
pub const BP: usize = 5;

/// Source index.
pub const SI: usize = 6;

/// Destination index.
pub const DI: usize = 7;

/// Extra segment, the first of the six segment registers.
pub const ES: usize = 8;

/// Code segment.
pub const CS: usize = 9;

/// Stack segment.
pub const SS: usize = 10;

/// Data segment.
pub const DS: usize = 11;

/// Second extra segment.
pub const FS: usize = 12;

/// Third extra segment.
pub const GS: usize = 13;

/// Number of registers in the file.
pub const REGISTER_COUNT: usize = 14;

/// Number of registers whose halves can be addressed on their own.
pub const BYTE_REGISTER_COUNT: usize = 4;

/// The 16-bit value made of a high and a low byte.
pub open spec fn word(hi: u8, lo: u8) -> u16 {
    (hi * 256 + lo) as u16
}

/// The low byte of a 16-bit value.
pub open spec fn low_byte(v: u16) -> u8 {
    (v % 256) as u8
}

/// The high byte of a 16-bit value.
pub open spec fn high_byte(v: u16) -> u8 {
    (v / 256) as u8
}

/// `word` written with shift and or.
pub proof fn lemma_word_is_shift_or(hi: u8, lo: u8)
    ensures
        word(hi, lo) == ((hi as u16) << 8) | (lo as u16),
{
    assert((hi as u16) * 256 + (lo as u16) == ((hi as u16) << 8) | (lo as u16)) by (bit_vector);
}

/// One 16-bit register, stored as its two halves.
#[derive(Clone, Copy, Debug, PartialEq, Eq, Structural)]
pub struct Register16 {
    pub hi: u8,
    pub lo: u8,
}

impl Register16 {
    /// The 16-bit value the two halves make.
    pub open spec fn value(self) -> u16 {
        word(self.hi, self.lo)
    }

    /// Replaces both halves.
    pub fn set_u16(&mut self, val: u16)
        ensures
            final(self).value() == val,
            final(self).hi == high_byte(val),
            final(self).lo == low_byte(val),
    {
        assert(val >> 8 == val / 256) by (bit_vector);
        assert(val & 0xff == val % 256) by (bit_vector);
        self.hi = (val >> 8) as u8;
        self.lo = (val & 0xff) as u8;
    }

    /// The 16-bit value the two halves make.
    pub fn u16(&self) -> (v: u16)
        ensures
            v == self.value(),
    {
        proof {
            lemma_word_is_shift_or(self.hi, self.lo);
        }
        (self.hi as u16) << 8 | self.lo as u16
    }
}

/// Which half of a 16-bit register an 8-bit access addresses.
#[derive(Clone, Copy, Debug, PartialEq, Eq, Structural)]
pub enum Half {
    Low,
    High,
}

/// The half `half` of the 16-bit value `v`.
pub open spec fn half_of(v: u16, half: Half) -> u8 {
    match half {
        Half::Low => low_byte(v),
        Half::High => high_byte(v),
    }
}

/// The 16-bit value `v` with its half `half` replaced by `b`.
pub open spec fn with_half(v: u16, half: Half, b: u8) -> u16 {
    match half {
        Half::Low => word(high_byte(v), b),
        Half::High => word(b, low_byte(v)),
    }
}

/// What an 8-bit read of register `index` gives: the addressed half for the
/// four byte-addressable registers, a contract violation for any other index.
pub open spec fn spec_read8(regs: Seq<u16>, index: usize, half: Half) -> Result<u8, Fault> {
    if index < BYTE_REGISTER_COUNT {
        Ok(half_of(regs[index as int], half))
    } else {
        Err(Fault::ContractViolation)
    }
}

/// What an 8-bit write to register `index` leaves in the file: the addressed
/// half replaced for the four byte-addressable registers, a contract violation
/// for any other index.
pub open spec fn spec_write8(regs: Seq<u16>, index: usize, half: Half, value: u8) -> Result<
    Seq<u16>,
    Fault,
> {
    if index < BYTE_REGISTER_COUNT {
        Ok(regs.update(index as int, with_half(regs[index as int], half, value)))
    } else {
        Err(Fault::ContractViolation)
    }
}

/// The fourteen registers. Their view is the sequence of their 16-bit values,
/// indexed by the register constants.
pub struct RegisterFile {
    pub r16: [Register16; 14],
}

impl View for RegisterFile {
    type V = Seq<u16>;

    open spec fn view(&self) -> Seq<u16> {
        Seq::new(REGISTER_COUNT as nat, |i: int| self.r16[i].value())
    }
}

impl RegisterFile {
    /// A register file with every register zero.
    pub fn new() -> (regs: RegisterFile)
        ensures
            regs@ == Seq::new(REGISTER_COUNT as nat, |i: int| 0u16),
    {
        RegisterFile { r16: [Register16 { hi: 0, lo: 0 };14] }
    }

    /// The value of register `index`.
    pub fn read16(&self, index: usize) -> (v: u16)
        requires
            index < REGISTER_COUNT,
        ensures
            v == self@[index as int],
    {
        self.r16[index].u16()
    }

    /// Replaces the whole value of register `index`; no other register changes.
    pub fn write16(&mut self, index: usize, value: u16)
        requires
            index < REGISTER_COUNT,
        ensures
            final(self)@ == old(self)@.update(index as int, value),
    {
        let mut r = self.r16[index];
        r.set_u16(value);
        self.r16[index] = r;
    }

    /// One half of a byte-addressable register.
    pub fn read8(&self, index: usize, half: Half) -> (r: Result<u8, Fault>)
        ensures
            r == spec_read8(self@, index, half),
    {
        if index >= BYTE_REGISTER_COUNT {
            return Err(Fault::ContractViolation);
        }
        match half {
            Half::Low => Ok(self.r16[index].lo),
            Half::High => Ok(self.r16[index].hi),
        }
    }

    /// Replaces one half of a byte-addressable register and leaves the other
    /// half, and every other register, as it was.
    pub fn write8(&mut self, index: usize, half: Half, value: u8) -> (r: Result<(), Fault>)
        ensures
            match spec_write8(old(self)@, index, half, value) {
                Ok(regs) => r == Ok::<(), Fault>(()) && final(self)@ == regs,
                Err(fault) => r == Err::<(), Fault>(fault) && final(self)@ == old(self)@,
            },
    {
        if index >= BYTE_REGISTER_COUNT {
            return Err(Fault::ContractViolation);
        }
        let mut r = self.r16[index];
        match half {
            Half::Low => {
                r.lo = value;
            },
            Half::High => {
                r.hi = value;
            },
        }
        self.r16[index] = r;
        Ok(())
    }
}

} // verus!
