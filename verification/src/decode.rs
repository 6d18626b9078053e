//! The operand decoder: the ModRM byte, the effective address of a memory
//! operand, and the two entry points that decode an operand pair.

use vstd::prelude::*;
use crate::cpu::{CpuView, Transition, CPU};
use crate::fault::Fault;
use crate::memory::{word_at, MEMORY_SIZE};
use crate::operand::{ModRegRm, Parameter, Parameters, RegisterSpace};
use crate::registers::{BP, BX, DI, SI};

verus! {

/// The sum of the base and index registers that the register/memory selector
/// `rm` (0 to 7) designates, before any wrapping.
pub open spec fn amode_base(regs: Seq<u16>, rm: u8) -> int {
    if rm == 0 {
        regs[BX as int] + regs[SI as int]
    } else if rm == 1 {
        regs[BX as int] + regs[DI as int]
    } else if rm == 2 {
        regs[BP as int] + regs[SI as int]
    } else if rm == 3 {
        regs[BP as int] + regs[DI as int]
    } else if rm == 4 {
        regs[SI as int] as int
    } else if rm == 5 {
        regs[DI as int] as int
    } else if rm == 6 {
        regs[BP as int] as int
    } else {
        regs[BX as int] as int
    }
}

/// The effective address of a memory operand: base and index registers plus
/// the displacement, wrapped to 16 bits.
pub open spec fn effective_address(regs: Seq<u16>, rm: u8, disp: int) -> u16 {
    ((amode_base(regs, rm) + disp) % (MEMORY_SIZE as int)) as u16
}

impl Parameters {
    /// The pair with source and destination exchanged.
    pub open spec fn spec_swapped(self) -> Parameters {
        Parameters { src: self.dst, dst: self.src }
    }

    /// The pair with source and destination exchanged.
    pub fn swapped(self) -> (p: Parameters)
        ensures
            p == self.spec_swapped(),
    {
        Parameters { src: self.dst, dst: self.src }
    }
}

impl CpuView {
    /// Decoding a ModRM byte: one byte is fetched and split into its fields.
    pub open spec fn decode_modrm(self) -> Transition<ModRegRm> {
        let f = self.fetch_u8();
        match f.result {
            Ok(b) => f.after.done(ModRegRm::spec_from_byte(b)),
            Err(fault) => f.after.failed(fault),
        }
    }

    /// The operand that is the word in memory at `addr`.
    pub open spec fn memory_operand(self, addr: u16) -> Parameter {
        Parameter::Imm16(word_at(self.memory, addr))
    }

    /// Resolving the register/memory operand of the fields `x`.
    ///
    /// Class 3 is the general register `x.rm`, and reads nothing. Class 0
    /// with selector 6 reads a 16-bit absolute address; class 0 otherwise
    /// takes the base and index registers alone; class 1 adds a sign-extended
    /// 8-bit displacement and class 2 a 16-bit displacement, read from the
    /// instruction stream. A memory operand resolves to the word at its
    /// address. Fields outside their bit width are a decode fault.
    pub open spec fn resolve_register_memory_operand(self, x: ModRegRm) -> Transition<Parameter> {
        if x.md > 3 || x.rm > 7 {
            self.failed(x.unresolved())
        } else if x.md == 3 {
            self.done(Parameter::Reg(x.rm as usize))
        } else if x.md == 0 && x.rm == 6 {
            let f = self.fetch_u16();
            match f.result {
                Ok(addr) => f.after.done(self.memory_operand(addr)),
                Err(fault) => f.after.failed(fault),
            }
        } else if x.md == 0 {
            self.done(self.memory_operand(effective_address(self.regs, x.rm, 0)))
        } else if x.md == 1 {
            let f = self.fetch_s8();
            match f.result {
                Ok(disp) => f.after.done(
                    self.memory_operand(effective_address(self.regs, x.rm, disp as int)),
                ),
                Err(fault) => f.after.failed(fault),
            }
        } else {
            let f = self.fetch_s16();
            match f.result {
                Ok(disp) => f.after.done(
                    self.memory_operand(effective_address(self.regs, x.rm, disp as int)),
                ),
                Err(fault) => f.after.failed(fault),
            }
        }
    }

    /// Decoding an operand pair whose destination is the register/memory
    /// operand and whose source is the register selected in `space`. The
    /// selector is checked before any displacement is read.
    pub open spec fn rm16_reg(self, space: RegisterSpace) -> Transition<Parameters> {
        let m = self.decode_modrm();
        match m.result {
            Err(fault) => m.after.failed(fault),
            Ok(x) => match x.spec_register(space) {
                Err(fault) => m.after.failed(fault),
                Ok(r) => {
                    let o = m.after.resolve_register_memory_operand(x);
                    match o.result {
                        Err(fault) => o.after.failed(fault),
                        Ok(p) => o.after.done(Parameters { dst: p, src: Parameter::Reg(r) }),
                    }
                },
            },
        }
    }

    /// Decoding an operand pair whose destination is the register selected
    /// in `space` and whose source is the register/memory operand.
    pub open spec fn reg_rm16(self, space: RegisterSpace) -> Transition<Parameters> {
        let d = self.rm16_reg(space);
        match d.result {
            Err(fault) => d.after.failed(fault),
            Ok(p) => d.after.done(p.spec_swapped()),
        }
    }
}

impl CPU {
    /// Reads one byte from the instruction stream and splits it into the
    /// fields of a ModRM byte.
    pub fn decode_modrm(&mut self) -> (r: Result<ModRegRm, Fault>)
        ensures
            r == old(self)@.decode_modrm().result,
            final(self)@ == old(self)@.decode_modrm().after,
    {
        match self.fetch_u8() {
            Ok(b) => Ok(ModRegRm::from_byte(b)),
            Err(fault) => Err(fault),
        }
    }

    /// The effective address that the selector `rm` and the displacement
    /// `disp` designate with the registers as they are.
    pub fn effective_address(&self, rm: u8, disp: i16) -> (ea: u16)
        requires
            rm < 8,
        ensures
            ea == effective_address(self.regs@, rm, disp as int),
    {
        let base: u16 = match rm {
            0 => self.regs.read16(BX).wrapping_add(self.regs.read16(SI)),
            1 => self.regs.read16(BX).wrapping_add(self.regs.read16(DI)),
            2 => self.regs.read16(BP).wrapping_add(self.regs.read16(SI)),
            3 => self.regs.read16(BP).wrapping_add(self.regs.read16(DI)),
            4 => self.regs.read16(SI),
            5 => self.regs.read16(DI),
            6 => self.regs.read16(BP),
            _ => self.regs.read16(BX),
        };
        base.wrapping_add_signed(disp)
    }

    /// Resolves the register/memory operand that the fields `x` select,
    /// reading from the instruction stream the displacement or address that
    /// the addressing-mode class calls for.
    pub fn resolve_register_memory_operand(&mut self, x: ModRegRm) -> (r: Result<Parameter, Fault>)
        ensures
            r == old(self)@.resolve_register_memory_operand(x).result,
            final(self)@ == old(self)@.resolve_register_memory_operand(x).after,
    {
        if x.md > 3 || x.rm > 7 {
            return Err(Fault::UnresolvedOperand { md: x.md, reg: x.reg, rm: x.rm });
        }
        if x.md == 3 {
            return Ok(Parameter::Reg(x.rm as usize));
        }
        let pos: u16 = if x.md == 0 && x.rm == 6 {
            match self.fetch_u16() {
                Ok(addr) => addr,
                Err(fault) => {
                    return Err(fault);
                },
            }
        } else if x.md == 0 {
            self.effective_address(x.rm, 0)
        } else if x.md == 1 {
            match self.fetch_s8() {
                Ok(disp) => self.effective_address(x.rm, disp as i16),
                Err(fault) => {
                    return Err(fault);
                },
            }
        } else {
            match self.fetch_s16() {
                Ok(disp) => self.effective_address(x.rm, disp),
                Err(fault) => {
                    return Err(fault);
                },
            }
        };
        Ok(Parameter::Imm16(self.peek_u16_at(pos)))
    }

    /// Decodes a ModRM operand pair with the register/memory operand as
    /// destination and the register selected in `space` as source.
    pub fn rm16_reg(&mut self, space: RegisterSpace) -> (r: Result<Parameters, Fault>)
        ensures
            r == old(self)@.rm16_reg(space).result,
            final(self)@ == old(self)@.rm16_reg(space).after,
    {
        let x = match self.decode_modrm() {
            Ok(x) => x,
            Err(fault) => {
                return Err(fault);
            },
        };
        let reg = match x.register(space) {
            Ok(reg) => reg,
            Err(fault) => {
                return Err(fault);
            },
        };
        match self.resolve_register_memory_operand(x) {
            Ok(p) => Ok(Parameters { dst: p, src: Parameter::Reg(reg) }),
            Err(fault) => Err(fault),
        }
    }

    /// Decodes a ModRM operand pair with the register selected in `space` as
    /// destination and the register/memory operand as source.
    pub fn reg_rm16(&mut self, space: RegisterSpace) -> (r: Result<Parameters, Fault>)
        ensures
            r == old(self)@.reg_rm16(space).result,
            final(self)@ == old(self)@.reg_rm16(space).after,
    {
        match self.rm16_reg(space) {
            Ok(p) => Ok(p.swapped()),
            Err(fault) => Err(fault),
        }
    }
}

} // verus!
