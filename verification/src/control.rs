//! The stepping controller: traced single steps, a fixed number of steps,
//! and running until a breakpoint or a failed step.

use vstd::prelude::*;
use crate::cpu::{CpuView, CPU, LAST_ADDRESS};
use crate::execute::Outcome;
use crate::fault::Fault;

verus! {

/// The record of one step, for reporting.
#[derive(Clone, Copy, Debug, PartialEq, Eq)]
pub struct StepTrace {
    /// Address at which the step started.
    pub addr: u16,
    /// The byte at that address.
    pub opcode: u8,
    /// The program counter after the step.
    pub next: u16,
    /// How the step ended.
    pub result: Result<Outcome, Fault>,
}

/// Why a run stopped.
#[derive(Clone, Copy, Debug, PartialEq, Eq, Structural)]
pub enum StopReason {
    /// The program counter reached the armed address `addr`.
    Breakpoint { addr: u16 },
    /// A step failed.
    Fault(Fault),
}

/// What a run did: how many steps it executed, the last one included, and
/// why it stopped.
#[derive(Clone, Copy, Debug, PartialEq, Eq, Structural)]
pub struct RunReport {
    pub steps: usize,
    pub reason: StopReason,
}

/// A run as a transition: its report and the state it leaves.
pub struct Run {
    pub report: RunReport,
    pub after: CpuView,
}

impl CpuView {
    /// The record of the step taken from this state.
    pub open spec fn trace(self) -> StepTrace {
        StepTrace {
            addr: self.pc,
            opcode: self.memory[self.pc as int],
            next: self.step().after.pc,
            result: self.step().result,
        }
    }

    /// The state after `n` steps, whether they complete or fail.
    pub open spec fn after_steps(self, n: nat) -> CpuView
        decreases n,
    {
        if n == 0 {
            self
        } else {
            self.after_steps((n - 1) as nat).step().after
        }
    }

    /// The records of the first `n` steps taken from this state.
    pub open spec fn traces(self, n: nat) -> Seq<StepTrace>
        decreases n,
    {
        if n == 0 {
            Seq::empty()
        } else {
            self.traces((n - 1) as nat).push(self.after_steps((n - 1) as nat).trace())
        }
    }

    /// Whether a run stops after the step taken from this state, and why: a
    /// failed step stops it with its fault; a completed step stops it when
    /// the program counter it leaves is an armed address.
    pub open spec fn stop_after_step(self) -> Option<StopReason> {
        let t = self.step();
        match t.result {
            Err(fault) => Some(StopReason::Fault(fault)),
            Ok(_) => if t.after.breakpoints.contains(t.after.pc) {
                Some(StopReason::Breakpoint { addr: t.after.pc })
            } else {
                None
            },
        }
    }

    /// The run from this state: steps are taken until one stops the run.
    pub open spec fn run(self) -> Run
        decreases LAST_ADDRESS - self.pc,
        via Self::run_decreases
    {
        match self.stop_after_step() {
            Some(reason) => Run {
                report: RunReport { steps: 1, reason },
                after: self.step().after,
            },
            None => {
                let rest = self.step().after.run();
                Run {
                    report: RunReport {
                        steps: (rest.report.steps + 1) as usize,
                        reason: rest.report.reason,
                    },
                    after: rest.after,
                }
            },
        }
    }

    #[via_fn]
    proof fn run_decreases(self) {
        lemma_step_advances(self);
    }
}

/// The program counter never moves backwards in a step, and a step that
/// completes moves it forward by at least two.
pub proof fn lemma_step_advances(s: CpuView)
    ensures
        s.step().after.pc >= s.pc,
        s.step().result is Ok ==> s.step().after.pc >= s.pc + 2,
{
    reveal(CpuView::step);
}

impl CPU {
    /// Executes one instruction and records how it went.
    pub fn step(&mut self) -> (trace: StepTrace)
        ensures
            trace == old(self)@.trace(),
            final(self)@ == old(self)@.step().after,
    {
        let addr = self.pc;
        let opcode = self.memory.read_u8(addr);
        let result = self.execute_instruction();
        StepTrace { addr, opcode, next: self.pc, result }
    }

    /// Executes exactly `n` steps, going on after a step that failed, and
    /// returns the record of each.
    pub fn step_n(&mut self, n: usize) -> (traces: Vec<StepTrace>)
        ensures
            traces@ == old(self)@.traces(n as nat),
            traces@.len() == n,
            final(self)@ == old(self)@.after_steps(n as nat),
    {
        let mut traces: Vec<StepTrace> = Vec::new();
        let mut i: usize = 0;
        while i < n
            invariant
                i <= n,
                traces@ == old(self)@.traces(i as nat),
                traces@.len() == i,
                self@ == old(self)@.after_steps(i as nat),
            decreases n - i,
        {
            let trace = self.step();
            traces.push(trace);
            i += 1;
        }
        traces
    }

    /// Executes steps until the program counter stands on an armed address
    /// after a step, or a step fails, and reports which of the two happened.
    ///
    /// Armed addresses are tested after a step only: a breakpoint at the
    /// address the run starts from does not stop it. With no address armed
    /// the run goes on until a step fails. It always ends, because no
    /// instruction moves the program counter backwards and a fetch past the
    /// last address is a fault.
    pub fn run_until_breakpoint(&mut self) -> (report: RunReport)
        ensures
            report == old(self)@.run().report,
            final(self)@ == old(self)@.run().after,
    {
        let mut steps: usize = 0;
        loop
            invariant
                steps + old(self).pc <= self.pc,
                old(self)@.run().after == self@.run().after,
                old(self)@.run().report.reason == self@.run().report.reason,
                old(self)@.run().report.steps == steps + self@.run().report.steps,
            decreases LAST_ADDRESS - self.pc,
        {
            proof {
                lemma_step_advances(self@);
                lemma_run_steps_bounded(self@.step().after);
            }
            let result = self.execute_instruction();
            steps += 1;
            match result {
                Err(fault) => {
                    return RunReport { steps, reason: StopReason::Fault(fault) };
                },
                Ok(_) => {
                    if self.breakpoints.contains(self.pc) {
                        return RunReport { steps, reason: StopReason::Breakpoint { addr: self.pc } };
                    }
                },
            }
        }
    }
}

/// A run takes at least one step and no more steps than there are addresses
/// from the program counter on.
pub proof fn lemma_run_steps_bounded(s: CpuView)
    ensures
        1 <= s.run().report.steps <= LAST_ADDRESS - s.pc + 1,
    decreases LAST_ADDRESS - s.pc,
{
    lemma_step_advances(s);
    if s.stop_after_step() is None {
        lemma_run_steps_bounded(s.step().after);
    }
}

} // verus!
