//! The execution engine: the opcode table, the move routines, and the single
//! fetch-decode-execute step.

use vstd::prelude::*;
use crate::cpu::{CpuView, Transition, CPU};
use crate::fault::Fault;
use crate::operand::{Parameter, Parameters, RegisterSpace};
use crate::registers::{with_half, Half, BYTE_REGISTER_COUNT, REGISTER_COUNT};

verus! {

/// What an opcode byte stands for. Every byte maps to one of these.
#[derive(Clone, Copy, Debug, PartialEq, Eq, Structural)]
pub enum Instruction {
    /// `8E`: move a register/memory word operand into a segment register.
    MovSregRm16,
    /// `B0` to `B7`: move an immediate byte into the 8-bit register `reg`.
    MovR8Imm8 { reg: usize },
    /// `B8` to `BF`: move an immediate word into the 16-bit register `reg`.
    MovR16Imm16 { reg: usize },
    /// `CD`: software interrupt.
    Int,
    /// Any other byte.
    Unrecognized,
}

/// What a completed step did.
#[derive(Clone, Copy, Debug, PartialEq, Eq, Structural)]
pub enum Outcome {
    /// The instruction was applied in full.
    Completed,
    /// A software interrupt was decoded. Its vector was read, but dispatch
    /// through the vector table is not implemented and nothing else was done.
    UnimplementedInterrupt { vector: u8 },
}

/// The opcode table.
pub open spec fn spec_dispatch(opcode: u8) -> Instruction {
    if opcode == 0x8E {
        Instruction::MovSregRm16
    } else if 0xB0 <= opcode <= 0xB7 {
        Instruction::MovR8Imm8 { reg: (opcode - 0xB0) as usize }
    } else if 0xB8 <= opcode <= 0xBF {
        Instruction::MovR16Imm16 { reg: (opcode - 0xB8) as usize }
    } else if opcode == 0xCD {
        Instruction::Int
    } else {
        Instruction::Unrecognized
    }
}

/// Looks an opcode byte up in the opcode table.
pub fn dispatch(opcode: u8) -> (instruction: Instruction)
    ensures
        instruction == spec_dispatch(opcode),
{
    match opcode {
        0x8E => Instruction::MovSregRm16,
        0xB0..=0xB7 => Instruction::MovR8Imm8 { reg: (opcode - 0xB0) as usize },
        0xB8..=0xBF => Instruction::MovR16Imm16 { reg: (opcode - 0xB8) as usize },
        0xCD => Instruction::Int,
        _ => Instruction::Unrecognized,
    }
}

impl CpuView {
    /// This state with one more instruction counted, unless the counter is
    /// at its largest value.
    pub open spec fn counted(self) -> CpuView {
        CpuView {
            instruction_count: if self.instruction_count < u64::MAX {
                (self.instruction_count + 1) as u64
            } else {
                self.instruction_count
            },
            ..self
        }
    }

    /// The 8-bit move. The destination must be an 8-bit register (0 to 3 a
    /// low half, 4 to 7 the high half of register 0 to 3) and the source an
    /// 8-bit immediate; only the addressed half changes. Any other pair is a
    /// contract violation and changes nothing.
    pub open spec fn mov_u8(self, p: Parameters) -> Transition<()> {
        match (p.dst, p.src) {
            (Parameter::Reg(r), Parameter::Imm8(v)) => if r < BYTE_REGISTER_COUNT {
                self.with_regs(
                    self.regs.update(r as int, with_half(self.regs[r as int], Half::Low, v)),
                ).done(())
            } else if r < 2 * BYTE_REGISTER_COUNT {
                self.with_regs(
                    self.regs.update(
                        r - BYTE_REGISTER_COUNT,
                        with_half(self.regs[r - BYTE_REGISTER_COUNT], Half::High, v),
                    ),
                ).done(())
            } else {
                self.failed(Fault::ContractViolation)
            },
            _ => self.failed(Fault::ContractViolation),
        }
    }

    /// The 16-bit move. The destination must be a register and the source a
    /// 16-bit immediate or a register; the whole destination is replaced, by
    /// the immediate or by the value the source register holds. Any other
    /// pair is a contract violation and changes nothing.
    pub open spec fn mov_r16(self, p: Parameters) -> Transition<()> {
        match (p.dst, p.src) {
            (Parameter::Reg(r), Parameter::Imm16(v)) => if r < REGISTER_COUNT {
                self.with_regs(self.regs.update(r as int, v)).done(())
            } else {
                self.failed(Fault::ContractViolation)
            },
            (Parameter::Reg(r), Parameter::Reg(s)) => if r < REGISTER_COUNT && s < REGISTER_COUNT {
                self.with_regs(self.regs.update(r as int, self.regs[s as int])).done(())
            } else {
                self.failed(Fault::ContractViolation)
            },
            _ => self.failed(Fault::ContractViolation),
        }
    }

    /// A move that ended as `m`, as the outcome of a step.
    pub open spec fn moved(m: Transition<()>) -> Transition<Outcome> {
        match m.result {
            Ok(_) => m.after.done(Outcome::Completed),
            Err(fault) => m.after.failed(fault),
        }
    }

    /// Applying `instruction`, whose opcode byte `opcode` was fetched at
    /// `start`, with the program counter just past the opcode.
    pub open spec fn execute(self, instruction: Instruction, opcode: u8, start: u16) -> Transition<
        Outcome,
    > {
        match instruction {
            Instruction::MovSregRm16 => {
                let d = self.reg_rm16(RegisterSpace::Segment);
                match d.result {
                    Ok(p) => Self::moved(d.after.mov_r16(p)),
                    Err(fault) => d.after.failed(fault),
                }
            },
            Instruction::MovR8Imm8 { reg } => {
                let f = self.fetch_u8();
                match f.result {
                    Ok(v) => Self::moved(
                        f.after.mov_u8(
                            Parameters { dst: Parameter::Reg(reg), src: Parameter::Imm8(v) },
                        ),
                    ),
                    Err(fault) => f.after.failed(fault),
                }
            },
            Instruction::MovR16Imm16 { reg } => {
                let f = self.fetch_u16();
                match f.result {
                    Ok(v) => Self::moved(
                        f.after.mov_r16(
                            Parameters { dst: Parameter::Reg(reg), src: Parameter::Imm16(v) },
                        ),
                    ),
                    Err(fault) => f.after.failed(fault),
                }
            },
            Instruction::Int => {
                let f = self.fetch_u8();
                match f.result {
                    Ok(vector) => f.after.done(Outcome::UnimplementedInterrupt { vector }),
                    Err(fault) => f.after.failed(fault),
                }
            },
            Instruction::Unrecognized => self.failed(
                Fault::UnrecognizedOpcode { opcode, addr: start },
            ),
        }
    }

    /// One step: the opcode byte is fetched and looked up, and the
    /// instruction is applied with all its operand bytes. A step that
    /// completes is counted. A step that fails leaves registers and memory as
    /// they were; the program counter has passed the bytes that were
    /// consumed.
    #[verifier::opaque]
    pub open spec fn step(self) -> Transition<Outcome> {
        let f = self.fetch_u8();
        match f.result {
            Err(fault) => f.after.failed(fault),
            Ok(opcode) => {
                let e = f.after.execute(spec_dispatch(opcode), opcode, self.pc);
                match e.result {
                    Ok(outcome) => e.after.counted().done(outcome),
                    Err(fault) => e.after.failed(fault),
                }
            },
        }
    }
}

impl CPU {
    /// Executes an 8-bit move of an immediate into a register half.
    pub fn mov_u8(&mut self, p: &Parameters) -> (r: Result<(), Fault>)
        ensures
            r == old(self)@.mov_u8(*p).result,
            final(self)@ == old(self)@.mov_u8(*p).after,
    {
        match (p.dst, p.src) {
            (Parameter::Reg(r), Parameter::Imm8(v)) => {
                if r < BYTE_REGISTER_COUNT {
                    self.regs.write8(r, Half::Low, v)
                } else if r < 2 * BYTE_REGISTER_COUNT {
                    self.regs.write8(r - BYTE_REGISTER_COUNT, Half::High, v)
                } else {
                    Err(Fault::ContractViolation)
                }
            },
            _ => Err(Fault::ContractViolation),
        }
    }

    /// Executes a 16-bit move of an immediate or a register into a register.
    pub fn mov_r16(&mut self, p: &Parameters) -> (r: Result<(), Fault>)
        ensures
            r == old(self)@.mov_r16(*p).result,
            final(self)@ == old(self)@.mov_r16(*p).after,
    {
        match (p.dst, p.src) {
            (Parameter::Reg(r), Parameter::Imm16(v)) => {
                if r < REGISTER_COUNT {
                    self.regs.write16(r, v);
                    Ok(())
                } else {
                    Err(Fault::ContractViolation)
                }
            },
            (Parameter::Reg(r), Parameter::Reg(s)) => {
                if r < REGISTER_COUNT && s < REGISTER_COUNT {
                    let v = self.regs.read16(s);
                    self.regs.write16(r, v);
                    Ok(())
                } else {
                    Err(Fault::ContractViolation)
                }
            },
            _ => Err(Fault::ContractViolation),
        }
    }

    /// Decodes the operands of `instruction` and applies it. The opcode byte
    /// `opcode`, fetched at `start`, has been consumed already.
    fn execute(&mut self, instruction: Instruction, opcode: u8, start: u16) -> (r: Result<
        Outcome,
        Fault,
    >)
        ensures
            r == old(self)@.execute(instruction, opcode, start).result,
            final(self)@ == old(self)@.execute(instruction, opcode, start).after,
    {
        let p = match instruction {
            Instruction::MovSregRm16 => match self.reg_rm16(RegisterSpace::Segment) {
                Ok(p) => p,
                Err(fault) => {
                    return Err(fault);
                },
            },
            Instruction::MovR8Imm8 { reg } => match self.fetch_u8() {
                Ok(v) => {
                    let p = Parameters { dst: Parameter::Reg(reg), src: Parameter::Imm8(v) };
                    return match self.mov_u8(&p) {
                        Ok(_) => Ok(Outcome::Completed),
                        Err(fault) => Err(fault),
                    };
                },
                Err(fault) => {
                    return Err(fault);
                },
            },
            Instruction::MovR16Imm16 { reg } => match self.fetch_u16() {
                Ok(v) => Parameters { dst: Parameter::Reg(reg), src: Parameter::Imm16(v) },
                Err(fault) => {
                    return Err(fault);
                },
            },
            Instruction::Int => {
                return match self.fetch_u8() {
                    Ok(vector) => Ok(Outcome::UnimplementedInterrupt { vector }),
                    Err(fault) => Err(fault),
                };
            },
            Instruction::Unrecognized => {
                return Err(Fault::UnrecognizedOpcode { opcode, addr: start });
            },
        };
        match self.mov_r16(&p) {
            Ok(_) => Ok(Outcome::Completed),
            Err(fault) => Err(fault),
        }
    }

    /// Executes the instruction at the program counter: fetches the opcode
    /// byte, looks it up, and applies the instruction with all its operand
    /// bytes.
    pub fn execute_instruction(&mut self) -> (r: Result<Outcome, Fault>)
        ensures
            r == old(self)@.step().result,
            final(self)@ == old(self)@.step().after,
    {
        proof {
            reveal(CpuView::step);
        }
        let start = self.pc;
        let opcode = match self.fetch_u8() {
            Ok(opcode) => opcode,
            Err(fault) => {
                return Err(fault);
            },
        };
        match self.execute(dispatch(opcode), opcode, start) {
            Ok(outcome) => {
                self.instruction_count = self.instruction_count.saturating_add(1);
                Ok(outcome)
            },
            Err(fault) => Err(fault),
        }
    }
}

} // verus!
