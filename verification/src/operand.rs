//! Operand descriptors, the fields of the ModRM byte, and the names of the
//! registers and addressing modes that the fields select.

use vstd::prelude::*;
use crate::fault::Fault;
use crate::registers::ES;

verus! {

/// Number of general registers.
pub const GENERAL_REGISTER_COUNT: u8 = 8;

/// Number of segment registers.
pub const SEGMENT_REGISTER_COUNT: u8 = 6;

/// One instruction operand.
#[derive(Clone, Copy, Debug, PartialEq, Eq, Structural)]
pub enum Parameter {
    /// An 8-bit immediate.
    Imm8(u8),
    /// A 16-bit immediate, or the word that a memory operand holds.
    Imm16(u16),
    /// A register, by its index. In an 8-bit move the indices 0 to 3 name the
    /// low halves and 4 to 7 the high halves of the byte-addressable
    /// registers.
    Reg(usize),
}

/// The operand pair of a decoded instruction.
#[derive(Clone, Copy, Debug, PartialEq, Eq, Structural)]
pub struct Parameters {
    pub src: Parameter,
    pub dst: Parameter,
}

/// Which registers the register-selector field of a ModRM byte names. The
/// opcode decides; the decoder is told.
#[derive(Clone, Copy, Debug, PartialEq, Eq, Structural)]
pub enum RegisterSpace {
    General,
    Segment,
}

/// The three fields of a ModRM byte.
#[derive(Clone, Copy, Debug, PartialEq, Eq, Structural)]
pub struct ModRegRm {
    /// Addressing-mode class, two bits.
    pub md: u8,
    /// Register selector, three bits.
    pub reg: u8,
    /// Register/memory selector, three bits.
    pub rm: u8,
}

impl ModRegRm {
    /// The fields of the byte `b`: the two highest bits, the three below
    /// them, and the three lowest.
    pub open spec fn spec_from_byte(b: u8) -> ModRegRm {
        ModRegRm { md: b / 64, reg: (b / 8) % 8, rm: b % 8 }
    }

    /// Splits a byte into its fields.
    pub fn from_byte(b: u8) -> (x: ModRegRm)
        ensures
            x == Self::spec_from_byte(b),
    {
        assert(b >> 6 == b / 64) by (bit_vector);
        assert((b >> 3) & 7 == (b / 8) % 8) by (bit_vector);
        assert(b & 7 == b % 8) by (bit_vector);
        ModRegRm { md: b >> 6, reg: (b >> 3) & 7, rm: b & 7 }
    }

    /// The fault that reports these fields as unresolvable.
    pub open spec fn unresolved(self) -> Fault {
        Fault::UnresolvedOperand { md: self.md, reg: self.reg, rm: self.rm }
    }

    /// The index of the register that the register-selector field names in
    /// `space`. A selector beyond the registers of the space is a decode
    /// fault.
    pub open spec fn spec_register(self, space: RegisterSpace) -> Result<usize, Fault> {
        match space {
            RegisterSpace::General => if self.reg < GENERAL_REGISTER_COUNT {
                Ok(self.reg as usize)
            } else {
                Err(self.unresolved())
            },
            RegisterSpace::Segment => if self.reg < SEGMENT_REGISTER_COUNT {
                Ok((ES + self.reg) as usize)
            } else {
                Err(self.unresolved())
            },
        }
    }

    /// The register that the register-selector field names, given the space
    /// that the opcode calls for.
    pub fn register(&self, space: RegisterSpace) -> (r: Result<usize, Fault>)
        ensures
            r == self.spec_register(space),
    {
        let count = match space {
            RegisterSpace::General => GENERAL_REGISTER_COUNT,
            RegisterSpace::Segment => SEGMENT_REGISTER_COUNT,
        };
        if self.reg >= count {
            return Err(Fault::UnresolvedOperand { md: self.md, reg: self.reg, rm: self.rm });
        }
        match space {
            RegisterSpace::General => Ok(self.reg as usize),
            RegisterSpace::Segment => Ok(ES + self.reg as usize),
        }
    }
}

/// The name of the segment register with selector `reg`.
pub open spec fn sreg_name(reg: u8) -> Seq<char> {
    if reg == 0 {
        "es"@
    } else if reg == 1 {
        "cs"@
    } else if reg == 2 {
        "ss"@
    } else if reg == 3 {
        "ds"@
    } else if reg == 4 {
        "fs"@
    } else if reg == 5 {
        "gs"@
    } else {
        "?"@
    }
}

/// The name of the segment register with selector `reg`, `"?"` where there
/// is none.
pub fn sreg(reg: u8) -> (name: &'static str)
    ensures
        name@ == sreg_name(reg),
{
    match reg {
        0 => "es",
        1 => "cs",
        2 => "ss",
        3 => "ds",
        4 => "fs",
        5 => "gs",
        _ => "?",
    }
}

/// The name of the 16-bit addressing mode with register/memory selector
/// `rm`.
pub open spec fn amode_name(rm: u8) -> Seq<char> {
    if rm == 0 {
        "bx+si"@
    } else if rm == 1 {
        "bx+di"@
    } else if rm == 2 {
        "bp+si"@
    } else if rm == 3 {
        "bp+di"@
    } else if rm == 4 {
        "si"@
    } else if rm == 5 {
        "di"@
    } else if rm == 6 {
        "bp"@
    } else if rm == 7 {
        "bx"@
    } else {
        "?"@
    }
}

/// The name of the 16-bit addressing mode with register/memory selector
/// `rm`, `"?"` where there is none.
pub fn amode(rm: u8) -> (name: &'static str)
    ensures
        name@ == amode_name(rm),
{
    match rm {
        0 => "bx+si",
        1 => "bx+di",
        2 => "bp+si",
        3 => "bp+di",
        4 => "si",
        5 => "di",
        6 => "bp",
        7 => "bx",
        _ => "?",
    }
}

} // verus!
