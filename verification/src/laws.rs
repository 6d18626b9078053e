//! Laws of the machine: what holds of every state and every input, proved
//! from the definitions that the contracts of the operations are stated in.

use vstd::prelude::*;
use crate::control::{lemma_run_steps_bounded, lemma_step_advances, StopReason};
use crate::cpu::{CpuView, Transition, CPU, LAST_ADDRESS};
use crate::execute::{spec_dispatch, Instruction, Outcome};
use crate::fault::{Fault, FaultKind};
use crate::memory::{clipped_len, spec_load_block, word_at, MEMORY_SIZE};
use crate::operand::{ModRegRm, Parameter, SEGMENT_REGISTER_COUNT};
use crate::registers::{
    high_byte, lemma_word_is_shift_or, low_byte, spec_write8, word, Half, BYTE_REGISTER_COUNT, ES,
    REGISTER_COUNT,
};

verus! {

/// The state of every CPU has the full address space and register file.
pub proof fn law_cpu_state_is_well_formed(cpu: CPU)
    ensures
        cpu@.wf(),
{
}

/// A 16-bit write to a register followed by a 16-bit read of it gives the
/// value written, and every other register reads as before.
pub proof fn law_write16_then_read16(regs: Seq<u16>, r: usize, v: u16)
    requires
        regs.len() == REGISTER_COUNT,
        r < REGISTER_COUNT,
    ensures
        regs.update(r as int, v)[r as int] == v,
        forall|q: int| 0 <= q < REGISTER_COUNT && q != r ==> regs.update(r as int, v)[q] == regs[q],
{
}

/// Writing `lo` to the low half and `hi` to the high half of a
/// byte-addressable register, in either order, leaves the register holding
/// `(hi << 8) | lo`.
pub proof fn law_halves_make_word(regs: Seq<u16>, r: usize, lo: u8, hi: u8)
    requires
        regs.len() == REGISTER_COUNT,
        r < BYTE_REGISTER_COUNT,
    ensures
        spec_write8(regs, r, Half::Low, lo) is Ok,
        spec_write8(spec_write8(regs, r, Half::Low, lo)->Ok_0, r, Half::High, hi) is Ok,
        spec_write8(spec_write8(regs, r, Half::Low, lo)->Ok_0, r, Half::High, hi)->Ok_0[r as int]
            == ((hi as u16) << 8) | (lo as u16),
        spec_write8(regs, r, Half::High, hi) is Ok,
        spec_write8(spec_write8(regs, r, Half::High, hi)->Ok_0, r, Half::Low, lo) is Ok,
        spec_write8(spec_write8(regs, r, Half::High, hi)->Ok_0, r, Half::Low, lo)->Ok_0[r as int]
            == ((hi as u16) << 8) | (lo as u16),
{
    lemma_word_is_shift_or(hi, lo);
}

/// An 8-bit write changes only the addressed half of its register, and no
/// other register.
pub proof fn law_write8_keeps_other_half(regs: Seq<u16>, r: usize, half: Half, b: u8)
    requires
        regs.len() == REGISTER_COUNT,
        r < BYTE_REGISTER_COUNT,
    ensures
        spec_write8(regs, r, half, b) is Ok,
        half == Half::Low ==> low_byte(spec_write8(regs, r, half, b)->Ok_0[r as int]) == b
            && high_byte(spec_write8(regs, r, half, b)->Ok_0[r as int]) == high_byte(
            regs[r as int],
        ),
        half == Half::High ==> high_byte(spec_write8(regs, r, half, b)->Ok_0[r as int]) == b
            && low_byte(spec_write8(regs, r, half, b)->Ok_0[r as int]) == low_byte(
            regs[r as int],
        ),
        forall|q: int|
            0 <= q < REGISTER_COUNT && q != r ==> spec_write8(regs, r, half, b)->Ok_0[q] == regs[q],
{
}

/// Fetching a word is fetching its low byte and then its high byte: the
/// result is `(hi << 8) | lo`, and the state is the one that the two byte
/// fetches leave.
pub proof fn law_fetch_u16_reads_low_byte_first(s: CpuView)
    requires
        s.wf(),
        s.can_fetch(2),
    ensures
        s.fetch_u8().result is Ok,
        s.fetch_u8().after.fetch_u8().result is Ok,
        s.fetch_u16().after == s.fetch_u8().after.fetch_u8().after,
        s.fetch_u16().result == Ok::<u16, Fault>(
            ((s.fetch_u8().after.fetch_u8().result->Ok_0 as u16) << 8) | (
            s.fetch_u8().result->Ok_0 as u16),
        ),
{
    lemma_word_is_shift_or(s.memory[s.pc + 1], s.memory[s.pc as int]);
}

/// The opcode `B8 + n` followed by the bytes `lo` and `hi` leaves register
/// `n` holding `(hi << 8) | lo`, every other register as it was, and the
/// program counter three past the opcode.
pub proof fn law_mov_r16_imm16(s: CpuView, n: usize, lo: u8, hi: u8)
    requires
        s.wf(),
        n < 8,
        s.can_fetch(3),
        s.memory[s.pc as int] == 0xB8 + n,
        s.memory[s.pc + 1] == lo,
        s.memory[s.pc + 2] == hi,
    ensures
        s.step().result == Ok::<Outcome, Fault>(Outcome::Completed),
        s.step().after.pc == s.pc + 3,
        s.step().after.regs == s.regs.update(n as int, ((hi as u16) << 8) | (lo as u16)),
        s.step().after.memory == s.memory,
{
    reveal(CpuView::step);
    lemma_word_is_shift_or(hi, lo);
}

/// The opcode `B0 + n`, for `n` below four, followed by the byte `b` leaves
/// the low half of register `n` equal to `b`, its high half and every other
/// register as they were, and the program counter two past the opcode.
pub proof fn law_mov_r8_imm8_low(s: CpuView, n: usize, b: u8)
    requires
        s.wf(),
        n < BYTE_REGISTER_COUNT,
        s.can_fetch(2),
        s.memory[s.pc as int] == 0xB0 + n,
        s.memory[s.pc + 1] == b,
    ensures
        s.step().result == Ok::<Outcome, Fault>(Outcome::Completed),
        s.step().after.pc == s.pc + 2,
        s.step().after.regs.len() == REGISTER_COUNT,
        low_byte(s.step().after.regs[n as int]) == b,
        high_byte(s.step().after.regs[n as int]) == high_byte(s.regs[n as int]),
        forall|q: int| 0 <= q < REGISTER_COUNT && q != n ==> s.step().after.regs[q] == s.regs[q],
        s.step().after.memory == s.memory,
{
    reveal(CpuView::step);
}

/// The opcode `B4 + n`, for `n` below four, followed by the byte `b` leaves
/// the high half of register `n` equal to `b`, its low half and every other
/// register as they were, and the program counter two past the opcode.
pub proof fn law_mov_r8_imm8_high(s: CpuView, n: usize, b: u8)
    requires
        s.wf(),
        n < BYTE_REGISTER_COUNT,
        s.can_fetch(2),
        s.memory[s.pc as int] == 0xB4 + n,
        s.memory[s.pc + 1] == b,
    ensures
        s.step().result == Ok::<Outcome, Fault>(Outcome::Completed),
        s.step().after.pc == s.pc + 2,
        s.step().after.regs.len() == REGISTER_COUNT,
        high_byte(s.step().after.regs[n as int]) == b,
        low_byte(s.step().after.regs[n as int]) == low_byte(s.regs[n as int]),
        forall|q: int| 0 <= q < REGISTER_COUNT && q != n ==> s.step().after.regs[q] == s.regs[q],
        s.step().after.memory == s.memory,
{
    reveal(CpuView::step);
}

/// The opcode `8E` with a ModRM byte of class 3 copies the general register
/// that the register/memory field names into the segment register that the
/// register selector names, and moves the program counter two past the
/// opcode.
pub proof fn law_mov_sreg_from_register(s: CpuView, modrm: u8)
    requires
        s.wf(),
        s.can_fetch(2),
        s.memory[s.pc as int] == 0x8E,
        s.memory[s.pc + 1] == modrm,
        modrm >= 0xC0,
        (modrm / 8) % 8 < SEGMENT_REGISTER_COUNT,
    ensures
        s.step().result == Ok::<Outcome, Fault>(Outcome::Completed),
        s.step().after.pc == s.pc + 2,
        s.step().after.regs == s.regs.update(
            ES + (modrm / 8) % 8,
            s.regs[(modrm % 8) as int],
        ),
{
    reveal(CpuView::step);
}

/// The opcode `8E` with a ModRM byte of class 0 and selector 6, followed by
/// an address, copies the word that memory holds at that address into the
/// segment register, and moves the program counter four past the opcode.
pub proof fn law_mov_sreg_from_absolute(s: CpuView, modrm: u8, lo: u8, hi: u8)
    requires
        s.wf(),
        s.can_fetch(4),
        s.memory[s.pc as int] == 0x8E,
        s.memory[s.pc + 1] == modrm,
        modrm < 0x40,
        modrm % 8 == 6,
        (modrm / 8) % 8 < SEGMENT_REGISTER_COUNT,
        s.memory[s.pc + 2] == lo,
        s.memory[s.pc + 3] == hi,
    ensures
        s.step().result == Ok::<Outcome, Fault>(Outcome::Completed),
        s.step().after.pc == s.pc + 4,
        s.step().after.regs == s.regs.update(
            ES + (modrm / 8) % 8,
            word_at(s.memory, word(hi, lo)),
        ),
{
    reveal(CpuView::step);
}

/// A segment move whose register selector names no segment register is a
/// decode fault that consumes the opcode and the ModRM byte only.
pub proof fn law_unknown_segment_register(s: CpuView, modrm: u8)
    requires
        s.wf(),
        s.can_fetch(2),
        s.memory[s.pc as int] == 0x8E,
        s.memory[s.pc + 1] == modrm,
        (modrm / 8) % 8 >= SEGMENT_REGISTER_COUNT,
    ensures
        s.step().result == Err::<Outcome, Fault>(ModRegRm::spec_from_byte(modrm).unresolved()),
        s.step().result->Err_0.spec_kind() == FaultKind::Decode,
        s.step().after == s.with_pc((s.pc + 2) as u16),
{
    reveal(CpuView::step);
}

/// The opcode `CD` followed by a vector is reported as an interrupt that is
/// not implemented: the vector is consumed, the step counts as completed,
/// and neither registers nor memory change.
pub proof fn law_interrupt_is_reported(s: CpuView, vector: u8)
    requires
        s.wf(),
        s.can_fetch(2),
        s.memory[s.pc as int] == 0xCD,
        s.memory[s.pc + 1] == vector,
    ensures
        s.step().result == Ok::<Outcome, Fault>(Outcome::UnimplementedInterrupt { vector }),
        s.step().after == s.with_pc((s.pc + 2) as u16).counted(),
{
    reveal(CpuView::step);
}

/// A ModRM operand of addressing-mode class 3 is the register that the
/// register/memory field names, and resolving it reads nothing: the state,
/// and with it the program counter, stays as it was.
pub proof fn law_register_direct_reads_nothing(s: CpuView, x: ModRegRm)
    requires
        x.md == 3,
        x.rm < 8,
    ensures
        s.resolve_register_memory_operand(x) == (Transition::<Parameter> {
            after: s,
            result: Ok(Parameter::Reg(x.rm as usize)),
        }),
{
}

/// Every byte from `C0` on splits into fields of addressing-mode class 3.
pub proof fn law_class_3_bytes(b: u8)
    ensures
        ModRegRm::spec_from_byte(b).md == 3 <==> b >= 0xC0,
        ModRegRm::spec_from_byte(b).md <= 3,
        ModRegRm::spec_from_byte(b).reg <= 7,
        ModRegRm::spec_from_byte(b).rm <= 7,
{
}

/// A block that does not fit below the end of memory is cut there: the
/// addresses from `offset` to the last take the first bytes of `data`, as
/// many as there are such addresses, and the addresses below `offset` keep
/// their bytes.
pub proof fn law_load_block_clips(mem: Seq<u8>, data: Seq<u8>, offset: u16)
    requires
        mem.len() == MEMORY_SIZE,
        offset + data.len() > MEMORY_SIZE,
    ensures
        spec_load_block(mem, data, offset).len() == MEMORY_SIZE,
        clipped_len(data.len(), offset) == MEMORY_SIZE - offset,
        forall|i: int| 0 <= i < offset ==> spec_load_block(mem, data, offset)[i] == mem[i],
        forall|i: int|
            offset <= i < MEMORY_SIZE ==> spec_load_block(mem, data, offset)[i] == data[i - offset],
{
}

/// A block load changes no byte outside the addresses it covers, whether the
/// block fits or not.
pub proof fn law_load_block_keeps_the_rest(mem: Seq<u8>, data: Seq<u8>, offset: u16)
    requires
        mem.len() == MEMORY_SIZE,
    ensures
        spec_load_block(mem, data, offset).len() == MEMORY_SIZE,
        forall|i: int|
            0 <= i < MEMORY_SIZE && !(offset <= i < offset + clipped_len(data.len(), offset))
                ==> spec_load_block(mem, data, offset)[i] == mem[i],
        forall|i: int|
            offset <= i < offset + clipped_len(data.len(), offset) ==> spec_load_block(
                mem,
                data,
                offset,
            )[i] == data[i - offset],
{
}

/// The opcode table knows the bytes `8E`, `B0` to `BF` and `CD`, and no
/// other.
pub proof fn law_opcode_table(opcode: u8)
    ensures
        spec_dispatch(opcode) == Instruction::Unrecognized <==> opcode != 0x8E && opcode != 0xCD
            && !(0xB0 <= opcode <= 0xBF),
{
}

/// A step on an opcode byte other than `8E`, `B0` to `BF` and `CD` fails
/// with a decode fault that names the byte and its address, and consumes
/// that byte only: the program counter is one past it and nothing else has
/// changed.
pub proof fn law_unrecognized_opcode(s: CpuView)
    requires
        s.wf(),
        s.can_fetch(1),
        s.memory[s.pc as int] != 0x8E,
        s.memory[s.pc as int] != 0xCD,
        !(0xB0 <= s.memory[s.pc as int] <= 0xBF),
    ensures
        s.step().result == Err::<Outcome, Fault>(
            Fault::UnrecognizedOpcode { opcode: s.memory[s.pc as int], addr: s.pc },
        ),
        s.step().result->Err_0.spec_kind() == FaultKind::Decode,
        s.step().after == s.with_pc((s.pc + 1) as u16),
{
    reveal(CpuView::step);
}

/// No instruction stream leads a step into a contract violation: the
/// operands that the engine decodes are always ones that its move routines
/// accept.
pub proof fn law_step_never_violates_a_contract(s: CpuView)
    requires
        s.wf(),
    ensures
        s.step().result != Err::<Outcome, Fault>(Fault::ContractViolation),
{
    reveal(CpuView::step);
}

/// A step at the last address fetches nothing: it fails with a fatal fault
/// and leaves the state as it was.
pub proof fn law_step_at_last_address(s: CpuView)
    requires
        s.pc == LAST_ADDRESS,
    ensures
        s.step().result == Err::<Outcome, Fault>(Fault::EndOfMemory { addr: LAST_ADDRESS }),
        s.step().result->Err_0.spec_kind() == FaultKind::Fatal,
        s.step().after == s,
{
    reveal(CpuView::step);
}

/// A step never touches memory, breakpoints or the image base, and keeps
/// the state well formed.
pub proof fn law_step_keeps_memory(s: CpuView)
    requires
        s.wf(),
    ensures
        s.step().after.wf(),
        s.step().after.memory == s.memory,
        s.step().after.breakpoints == s.breakpoints,
        s.step().after.rom_base == s.rom_base,
{
    reveal(CpuView::step);
}

/// A step that fails changes nothing but the program counter, which has
/// passed the bytes that were consumed.
pub proof fn law_failed_step_is_atomic(s: CpuView)
    requires
        s.wf(),
        s.step().result is Err,
    ensures
        s.step().after == s.with_pc(s.step().after.pc),
        s.pc <= s.step().after.pc,
{
    reveal(CpuView::step);
}

/// A step that completes moves the program counter forward, by two bytes at
/// least and four at most, and counts one instruction.
pub proof fn law_completed_step_advances(s: CpuView)
    requires
        s.wf(),
        s.step().result is Ok,
    ensures
        s.pc + 2 <= s.step().after.pc <= s.pc + 4,
        s.step().after.instruction_count == s.counted().instruction_count,
{
    reveal(CpuView::step);
}

/// Taking one step and then `n` more is taking `n + 1` steps.
pub proof fn lemma_step_then_steps(s: CpuView, n: nat)
    ensures
        s.step().after.after_steps(n) == s.after_steps(n + 1),
    decreases n,
{
    if n > 0 {
        lemma_step_then_steps(s, (n - 1) as nat);
    }
    assert(s.after_steps(1) == s.after_steps(0).step().after);
}

/// A run ends with the first step that stops it: if none of the first `k`
/// steps stops the run and the next one does, for `reason`, then the run
/// takes exactly `k + 1` steps, reports `reason`, and leaves the state that
/// `k + 1` steps leave.
pub proof fn law_run_ends_at_first_stop(s: CpuView, k: nat, reason: StopReason)
    requires
        forall|j: nat| j < k ==> (#[trigger] s.after_steps(j)).stop_after_step() is None,
        s.after_steps(k).stop_after_step() == Some(reason),
    ensures
        s.run().report.steps == k + 1,
        s.run().report.reason == reason,
        s.run().after == s.after_steps(k + 1),
    decreases k,
{
    assert(s.after_steps(0) == s);
    if k > 0 {
        let t = s.step().after;
        lemma_run_steps_bounded(t);
        assert forall|j: nat| j < k - 1 implies (#[trigger] t.after_steps(j)).stop_after_step()
            is None by {
            lemma_step_then_steps(s, j);
        }
        lemma_step_then_steps(s, (k - 1) as nat);
        law_run_ends_at_first_stop(t, (k - 1) as nat, reason);
    }
}

/// Every run ends: it takes at least one step, none of its steps but the
/// last stops it, and the last stops it for the reason it reports.
pub proof fn law_run_ends(s: CpuView)
    ensures
        1 <= s.run().report.steps <= LAST_ADDRESS - s.pc + 1,
        forall|j: nat|
            j + 1 < s.run().report.steps ==> (#[trigger] s.after_steps(j)).stop_after_step()
                is None,
        s.after_steps((s.run().report.steps - 1) as nat).stop_after_step() == Some(
            s.run().report.reason,
        ),
        s.run().after == s.after_steps(s.run().report.steps as nat),
    decreases LAST_ADDRESS - s.pc,
{
    lemma_step_advances(s);
    if s.stop_after_step() is None {
        let t = s.step().after;
        law_run_ends(t);
        let n = t.run().report.steps;
        assert forall|j: nat| j + 1 < s.run().report.steps implies (#[trigger] s.after_steps(
            j,
        )).stop_after_step() is None by {
            if j > 0 {
                lemma_step_then_steps(s, (j - 1) as nat);
            }
        }
        lemma_step_then_steps(s, (n - 1) as nat);
    }
}

/// `n` steps leave `n` records.
pub proof fn law_traces_len(s: CpuView, n: nat)
    ensures
        s.traces(n).len() == n,
    decreases n,
{
    if n > 0 {
        law_traces_len(s, (n - 1) as nat);
    }
}

} // verus!
