use vstd::prelude::*;
use crate::time::add_sat;
use crate::scheduler::Wait;

verus! {

/// Where a sensor poll task stands.
#[derive(Clone, Copy, Debug, PartialEq, Eq, Structural)]
pub enum PollPhase {
    /// Sleeping until the next poll is due.
    Sleeping { until: u64 },
    /// A read transaction has been handed out and its outcome is awaited.
    Transacting,
}

/// Periodic sensor poll: a read transaction on each tick, then a sleep of the
/// fixed interval. A failed transaction is dropped; the schedule goes on.
#[derive(Clone, Copy, Debug, PartialEq, Eq, Structural)]
pub struct PollTask {
    pub interval: u64,
    pub phase: PollPhase,
}

/// The phase after the transaction's outcome arrives at time `now`: the next
/// poll is due one interval later, whatever the outcome.
pub open spec fn after_outcome(t: PollTask, now: u64, ok: bool) -> PollTask {
    match t.phase {
        PollPhase::Transacting => PollTask { phase: PollPhase::Sleeping { until: add_sat(now, t.interval) }, ..t },
        PollPhase::Sleeping { .. } => t,
    }
}

impl PollTask {
    /// A task whose first poll is due at once.
    pub fn new(interval: u64, now: u64) -> (r: PollTask)
        ensures
            r.interval == interval,
            r.phase == (PollPhase::Sleeping { until: now }),
    {
        PollTask { interval, phase: PollPhase::Sleeping { until: now } }
    }

    /// The condition the task is suspended on; `Ready` while a transaction is outstanding.
    pub fn wait(&self) -> (r: Wait)
        ensures
            self.phase matches PollPhase::Sleeping { until } ==> r == (Wait::Until { deadline: until }),
            self.phase is Transacting ==> r == Wait::Ready,
    {
        match self.phase {
            PollPhase::Sleeping { until } => Wait::Until { deadline: until },
            PollPhase::Transacting => Wait::Ready,
        }
    }

    /// The timer woke the task at `now`; returns whether a read transaction is to be made now.
    pub fn on_timer(&mut self, now: u64) -> (r: bool)
        ensures
            final(self).interval == old(self).interval,
            r == (old(self).phase matches PollPhase::Sleeping { until } && now >= until),
            r ==> final(self).phase == PollPhase::Transacting,
            !r ==> *final(self) == *old(self),
    {
        match self.phase {
            PollPhase::Sleeping { until } => {
                if now >= until {
                    self.phase = PollPhase::Transacting;
                    true
                } else {
                    false
                }
            },
            PollPhase::Transacting => false,
        }
    }

    /// The outcome of the transaction arrived at `now`: `ok` is whether it
    /// succeeded. Returns the wait until the next poll.
    pub fn on_outcome(&mut self, now: u64, ok: bool) -> (r: Wait)
        ensures
            *final(self) == after_outcome(*old(self), now, ok),
            r == final(self).wait_spec(),
    {
        if let PollPhase::Transacting = self.phase {
            self.phase = PollPhase::Sleeping { until: now.saturating_add(self.interval) };
        }
        self.wait()
    }

    pub open spec fn wait_spec(&self) -> Wait {
        match self.phase {
            PollPhase::Sleeping { until } => Wait::Until { deadline: until },
            PollPhase::Transacting => Wait::Ready,
        }
    }
}

/// A failed transaction leaves the task exactly where a successful one does:
/// the next poll is due one interval after the outcome, and the task holds no
/// record of the failure, so failing forever neither stops the polling nor
/// grows its state.
pub proof fn lemma_failure_keeps_schedule(t: PollTask, now: u64)
    requires
        t.phase is Transacting,
    ensures
        after_outcome(t, now, false) == after_outcome(t, now, true),
        after_outcome(t, now, false) == (PollTask {
            interval: t.interval,
            phase: PollPhase::Sleeping { until: add_sat(now, t.interval) },
        }),
{
}

} // verus!
