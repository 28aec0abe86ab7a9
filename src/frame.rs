use vstd::prelude::*;

use crate::signal::{delivered_interrupt, CpuInterrupt, Interrupt};

verus! {

/// Largest number of cycles a single CPU step can report.
pub const MAX_STEP_CYCLES: usize = 255;

/// What the host has to do next to advance the frame.
#[derive(Clone, Copy, Debug, PartialEq, Eq, Structural)]
pub enum FrameAction {
    /// Execute one CPU instruction and report its cycle count.
    StepCpu,
    /// Advance the PPU by this many CPU cycles and report what it raised.
    StepPpu(usize),
    /// Deliver this interrupt to the CPU before anything else runs.
    Deliver(Interrupt),
    /// The frame is complete.
    Finished,
}

/// What the host reports after carrying out an action.
#[derive(Clone, Copy, Debug, PartialEq, Eq, Structural)]
pub enum FrameEvent {
    CpuStepped(u8),
    PpuStepped(CpuInterrupt),
    Delivered,
}

/// Where the frame stands between two host calls.
#[derive(Clone, Copy, Debug, PartialEq, Eq, Structural)]
pub enum FramePhase {
    AwaitCpu,
    /// The CPU consumed this many cycles; the PPU has not seen them yet.
    AwaitPpu(u8),
    AwaitDelivery(Interrupt),
    Done,
}

/// Total cycle count of a trace of CPU steps.
pub open spec fn cycle_sum(trace: Seq<u8>) -> nat
    decreases trace.len(),
{
    if trace.len() == 0 {
        0
    } else {
        cycle_sum(trace.drop_last()) + trace.last() as nat
    }
}

/// The action that a phase is waiting on.
pub open spec fn expected_action(phase: FramePhase) -> FrameAction {
    match phase {
        FramePhase::AwaitCpu => FrameAction::StepCpu,
        FramePhase::AwaitPpu(c) => FrameAction::StepPpu(c as usize),
        FramePhase::AwaitDelivery(i) => FrameAction::Deliver(i),
        FramePhase::Done => FrameAction::Finished,
    }
}

/// One frame of CPU/PPU interleaving, paced in CPU cycles. The host performs
/// each action that this machine hands out and reports the outcome back.
pub struct FrameLoop {
    target: usize,
    elapsed: usize,
    phase: FramePhase,
    trace: Ghost<Seq<u8>>,
}

impl FrameLoop {
    /// Cycle budget of the frame.
    pub closed spec fn target(&self) -> nat {
        self.target as nat
    }

    /// Cycles of the instructions whose PPU step has been taken.
    pub closed spec fn elapsed(&self) -> nat {
        self.elapsed as nat
    }

    pub closed spec fn phase(&self) -> FramePhase {
        self.phase
    }

    /// Cycle counts of the completed instructions, in order.
    pub closed spec fn trace(&self) -> Seq<u8> {
        self.trace@
    }

    closed spec fn counts_wf(&self) -> bool {
        &&& self.target <= usize::MAX - MAX_STEP_CYCLES
        &&& self.elapsed as nat == cycle_sum(self.trace@)
        &&& forall|k: int|
            0 <= k < self.trace@.len() ==> #[trigger] cycle_sum(self.trace@.take(k)) < self.target
    }

    pub closed spec fn wf(&self) -> bool {
        &&& self.counts_wf()
        &&& match self.phase {
            FramePhase::AwaitCpu => self.elapsed < self.target,
            FramePhase::AwaitPpu(_) => self.elapsed < self.target,
            FramePhase::AwaitDelivery(_) => self.trace@.len() > 0,
            FramePhase::Done => self.elapsed >= self.target,
        }
    }

    /// The state after an instruction is fully accounted for: another CPU
    /// step while the budget is not reached, the end of the frame otherwise.
    pub open spec fn settled(&self, r: FrameAction) -> bool {
        &&& self.elapsed() < self.target() ==> self.phase() == FramePhase::AwaitCpu
        &&& self.elapsed() >= self.target() ==> self.phase() == FramePhase::Done
        &&& r == expected_action(self.phase())
    }

    /// Starts a frame whose budget is `target` CPU cycles.
    pub fn start(target: usize) -> (r: FrameLoop)
        requires
            target <= usize::MAX - MAX_STEP_CYCLES,
        ensures
            r.wf(),
            r.target() == target,
            r.elapsed() == 0,
            r.trace() == Seq::<u8>::empty(),
            r.phase() == (if target > 0 { FramePhase::AwaitCpu } else { FramePhase::Done }),
    {
        let phase = if target > 0 { FramePhase::AwaitCpu } else { FramePhase::Done };
        FrameLoop { target, elapsed: 0, phase, trace: Ghost(Seq::empty()) }
    }

    /// The action the frame is waiting on.
    pub fn next_action(&self) -> (r: FrameAction)
        ensures
            r == expected_action(self.phase()),
    {
        match self.phase {
            FramePhase::AwaitCpu => FrameAction::StepCpu,
            FramePhase::AwaitPpu(c) => FrameAction::StepPpu(c as usize),
            FramePhase::AwaitDelivery(i) => FrameAction::Deliver(i),
            FramePhase::Done => FrameAction::Finished,
        }
    }

    pub fn is_finished(&self) -> (r: bool)
        ensures
            r == (self.phase() == FramePhase::Done),
    {
        match self.phase {
            FramePhase::Done => true,
            _ => false,
        }
    }

    fn settle(&mut self) -> (r: FrameAction)
        requires
            old(self).counts_wf(),
            old(self).trace().len() > 0,
        ensures
            final(self).wf(),
            final(self).target() == old(self).target(),
            final(self).elapsed() == old(self).elapsed(),
            final(self).trace() == old(self).trace(),
            final(self).settled(r),
    {
        if self.elapsed < self.target {
            self.phase = FramePhase::AwaitCpu;
            FrameAction::StepCpu
        } else {
            self.phase = FramePhase::Done;
            FrameAction::Finished
        }
    }

    /// Takes the outcome of the last action and hands out the next one.
    /// The cycles of an instruction count once its PPU step is taken; an
    /// interrupt the PPU raised is handed out before the next CPU step. An
    /// event the frame is not waiting on changes nothing, and the pending
    /// action is handed out again.
    pub fn on_event(&mut self, event: FrameEvent) -> (r: FrameAction)
        requires
            old(self).wf(),
        ensures
            final(self).wf(),
            final(self).target() == old(self).target(),
            match (old(self).phase(), event) {
                (FramePhase::AwaitCpu, FrameEvent::CpuStepped(c)) => {
                    &&& final(self).phase() == FramePhase::AwaitPpu(c)
                    &&& final(self).trace() == old(self).trace()
                    &&& final(self).elapsed() == old(self).elapsed()
                    &&& r == FrameAction::StepPpu(c as usize)
                },
                (FramePhase::AwaitPpu(c), FrameEvent::PpuStepped(signal)) => {
                    &&& final(self).trace() == old(self).trace().push(c)
                    &&& final(self).elapsed() == old(self).elapsed() + c
                    &&& signal != CpuInterrupt::NONE ==> {
                        &&& final(self).phase() == FramePhase::AwaitDelivery(
                            delivered_interrupt(signal),
                        )
                        &&& r == FrameAction::Deliver(delivered_interrupt(signal))
                    }
                    &&& signal == CpuInterrupt::NONE ==> final(self).settled(r)
                },
                (FramePhase::AwaitDelivery(_), FrameEvent::Delivered) => {
                    &&& final(self).trace() == old(self).trace()
                    &&& final(self).elapsed() == old(self).elapsed()
                    &&& final(self).settled(r)
                },
                _ => {
                    &&& *final(self) == *old(self)
                    &&& r == expected_action(old(self).phase())
                },
            },
    {
        match (self.phase, event) {
            (FramePhase::AwaitCpu, FrameEvent::CpuStepped(c)) => {
                self.phase = FramePhase::AwaitPpu(c);
                FrameAction::StepPpu(c as usize)
            },
            (FramePhase::AwaitPpu(c), FrameEvent::PpuStepped(signal)) => {
                proof {
                    let t = self.trace@;
                    let t2 = t.push(c);
                    assert(t2.drop_last() =~= t);
                    assert forall|k: int| 0 <= k < t2.len() implies #[trigger] cycle_sum(
                        t2.take(k),
                    ) < self.target by {
                        if k < t.len() {
                            assert(t2.take(k) =~= t.take(k));
                        } else {
                            assert(t2.take(k) =~= t);
                        }
                    }
                    self.trace = Ghost(t2);
                }
                self.elapsed = self.elapsed + c as usize;
                match signal.pending() {
                    Some(irq) => {
                        self.phase = FramePhase::AwaitDelivery(irq);
                        FrameAction::Deliver(irq)
                    },
                    None => self.settle(),
                }
            },
            (FramePhase::AwaitDelivery(_), FrameEvent::Delivered) => self.settle(),
            _ => self.next_action(),
        }
    }
}

/// A finished frame ran its instructions until their cycles first reached
/// the budget: the total is at least the budget, overshoots it by less than
/// one instruction, and every earlier running total was short of it.
pub proof fn lemma_frame_budget(f: FrameLoop)
    requires
        f.wf(),
        f.phase() == FramePhase::Done,
    ensures
        f.elapsed() == cycle_sum(f.trace()),
        f.target() <= f.elapsed() <= f.target() + MAX_STEP_CYCLES - 1,
        forall|k: int|
            0 <= k < f.trace().len() ==> #[trigger] cycle_sum(f.trace().take(k)) < f.target(),
{
    let t = f.trace();
    if t.len() > 0 {
        assert(t.take(t.len() - 1) =~= t.drop_last());
        assert(cycle_sum(t.take(t.len() - 1)) < f.target());
    }
}

} // verus!
