use vstd::prelude::*;
use vstd::arithmetic::div_mod::lemma_fundamental_div_mod_converse;
use crate::level::Level;
use crate::time::add_sat;
use crate::scheduler::Wait;

verus! {

/// How long the LED stays on in each period, in milliseconds.
pub const ON_MS: u64 = 200;

/// How long the LED stays off in each period, in milliseconds.
pub const OFF_MS: u64 = 800;

/// The level that the blink pattern shows `t` milliseconds after it started.
pub open spec fn blink_level_at(t: int) -> Level {
    if t % 1000 < 200 {
        Level::High
    } else {
        Level::Low
    }
}

/// Blink task: high for 200 ms, low for 800 ms, forever. Each switch is timed
/// from the previous deadline, so the period does not drift.
pub struct BlinkTask {
    pub level: Level,
    pub deadline: u64,
    pub start: u64,
    pub cycles: Ghost<nat>,
}

impl BlinkTask {
    /// The deadline sits `cycles` whole periods after the start, plus the on
    /// time while high, or plus one more period while low.
    pub open spec fn wf(&self) -> bool {
        &&& self.level == Level::High ==> self.deadline == self.start + 1000 * self.cycles@ + 200
        &&& self.level == Level::Low ==> self.deadline == self.start + 1000 * (self.cycles@ + 1)
    }

    /// When the current level was set.
    pub open spec fn phase_begin(&self) -> int {
        if self.level == Level::High {
            self.deadline - 200
        } else {
            self.deadline - 800
        }
    }

    /// The task sleeps until its deadline.
    pub fn wait(&self) -> (r: Wait)
        ensures
            r == (Wait::Until { deadline: self.deadline }),
    {
        Wait::Until { deadline: self.deadline }
    }

    /// Starts the pattern at time `now`, high first.
    pub fn new(now: u64) -> (r: BlinkTask)
        requires
            now <= u64::MAX - ON_MS,
        ensures
            r.wf(),
            r.level == Level::High,
            r.start == now,
            r.deadline == now + ON_MS,
    {
        BlinkTask { level: Level::High, deadline: now + ON_MS, start: now, cycles: Ghost(0) }
    }

    /// The timer woke the task at `now`. Once the deadline is reached the
    /// level switches and the new level is returned for the output line.
    pub fn on_timer(&mut self, now: u64) -> (r: Option<Level>)
        requires
            old(self).wf(),
            old(self).deadline <= u64::MAX - OFF_MS,
        ensures
            final(self).wf(),
            final(self).start == old(self).start,
            now < old(self).deadline ==> r is None && final(self).level == old(self).level
                && final(self).deadline == old(self).deadline,
            now >= old(self).deadline && old(self).level == Level::High ==> r == Option::Some(Level::Low)
                && final(self).level == Level::Low && final(self).deadline == old(self).deadline + OFF_MS,
            now >= old(self).deadline && old(self).level == Level::Low ==> r == Option::Some(Level::High)
                && final(self).level == Level::High && final(self).deadline == old(self).deadline + ON_MS,
    {
        if now < self.deadline {
            return Option::None;
        }
        match self.level {
            Level::High => {
                self.level = Level::Low;
                self.deadline = self.deadline + OFF_MS;
                Option::Some(Level::Low)
            },
            Level::Low => {
                self.level = Level::High;
                self.deadline = self.deadline + ON_MS;
                self.cycles = Ghost(self.cycles@ + 1);
                Option::Some(Level::High)
            },
        }
    }
}

/// Between a switch and the next deadline the output shows the pattern's
/// level: high during the first 200 ms of each 1000 ms period, low after.
pub proof fn lemma_level_matches_pattern(b: BlinkTask, t: int)
    requires
        b.wf(),
        b.phase_begin() <= t < b.deadline,
    ensures
        blink_level_at(t - b.start) == b.level,
{
    let q = b.cycles@ as int;
    let x = t - b.start;
    if b.level == Level::High {
        lemma_fundamental_div_mod_converse(x, 1000, q, x - 1000 * q);
    } else {
        lemma_fundamental_div_mod_converse(x, 1000, q, x - 1000 * q);
    }
}

/// Counter task: every 500 ms it hands out its count, then adds one, wrapping.
#[derive(Clone, Copy, Debug, PartialEq, Eq, Structural)]
pub struct CounterTask {
    pub count: u8,
    pub deadline: u64,
}

/// Counter task period, in milliseconds.
pub const COUNT_MS: u64 = 500;

impl CounterTask {
    /// A counter at zero that runs at once.
    pub fn new(now: u64) -> (r: CounterTask)
        ensures
            r.count == 0,
            r.deadline == now,
    {
        CounterTask { count: 0, deadline: now }
    }

    /// The task sleeps until its deadline.
    pub fn wait(&self) -> (r: Wait)
        ensures
            r == (Wait::Until { deadline: self.deadline }),
    {
        Wait::Until { deadline: self.deadline }
    }

    pub fn on_timer(&mut self, now: u64) -> (r: Option<u8>)
        ensures
            now < old(self).deadline ==> r is None && *final(self) == *old(self),
            now >= old(self).deadline ==> r == Option::Some(old(self).count)
                && final(self).count == (if old(self).count == 255 { 0 } else { old(self).count + 1 })
                && final(self).deadline == add_sat(now, COUNT_MS),
    {
        if now < self.deadline {
            return Option::None;
        }
        let shown = self.count;
        self.count = self.count.wrapping_add(1);
        self.deadline = now.saturating_add(COUNT_MS);
        Option::Some(shown)
    }
}

} // verus!
