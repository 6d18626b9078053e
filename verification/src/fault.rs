//! The ways in which a decode or an execution step can fail.

use vstd::prelude::*;

verus! {

/// The three failure kinds that callers must be able to tell apart.
#[derive(Clone, Copy, Debug, PartialEq, Eq, Structural)]
pub enum FaultKind {
    /// The instruction bytes could not be decoded.
    Decode,
    /// An execution routine was handed operands it does not support.
    Contract,
    /// The instruction stream cannot be continued at all.
    Fatal,
}

/// A failed step, with what is needed to report it.
#[derive(Clone, Copy, Debug, PartialEq, Eq, Structural)]
pub enum Fault {
    /// The opcode byte belongs to no instruction family. `addr` is the address
    /// the instruction started at.
    UnrecognizedOpcode { opcode: u8, addr: u16 },
    /// The fields of a ModRM byte select an operand that does not exist.
    UnresolvedOperand { md: u8, reg: u8, rm: u8 },
    /// An execution routine received an operand combination outside its
    /// contract, or a register index outside the register file.
    ContractViolation,
    /// A fetch at `addr` would move the program counter past the last address.
    EndOfMemory { addr: u16 },
}

impl Fault {
    /// The kind a fault belongs to.
    pub open spec fn spec_kind(&self) -> FaultKind {
        match self {
            Fault::UnrecognizedOpcode { .. } => FaultKind::Decode,
            Fault::UnresolvedOperand { .. } => FaultKind::Decode,
            Fault::ContractViolation => FaultKind::Contract,
            Fault::EndOfMemory { .. } => FaultKind::Fatal,
        }
    }

    /// The kind a fault belongs to.
    #[verifier::when_used_as_spec(spec_kind)]
    pub fn kind(&self) -> (k: FaultKind)
        ensures
            k == self.spec_kind(),
    {
        match self {
            Fault::UnrecognizedOpcode { .. } => FaultKind::Decode,
            Fault::UnresolvedOperand { .. } => FaultKind::Decode,
            Fault::ContractViolation => FaultKind::Contract,
            Fault::EndOfMemory { .. } => FaultKind::Fatal,
        }
    }
}

} // verus!
