use vstd::prelude::*;
use crate::level::Level;
use crate::scheduler::{EdgeKind, Wait};
use crate::time::add_sat;

verus! {

/// Time given to contact bounce to settle, in milliseconds.
pub const SETTLE_MS: u64 = 20;

/// What the button task reports once the line has settled.
#[derive(Clone, Copy, Debug, PartialEq, Eq, Structural)]
pub enum ButtonEvent {
    Press,
    Release,
}

/// The button pulls its line low: a settled low level is a press.
pub open spec fn event_of(level: Level) -> ButtonEvent {
    if level == Level::Low {
        ButtonEvent::Press
    } else {
        ButtonEvent::Release
    }
}

/// Where the button task stands.
#[derive(Clone, Copy, Debug, PartialEq, Eq, Structural)]
pub enum ButtonPhase {
    /// Waiting for an edge on the line.
    Idle,
    /// An edge came; the line is sampled once the clock reaches `until`.
    Settling { until: u64 },
}

/// Debounced push button: after an edge it waits for the contacts to settle,
/// then reports from the level it samples, whatever the edges were.
#[derive(Clone, Copy, Debug, PartialEq, Eq, Structural)]
pub struct ButtonTask {
    pub line: usize,
    pub phase: ButtonPhase,
}

/// The phase after an edge at time `now`; edges while settling change nothing.
pub open spec fn after_edge(p: ButtonPhase, now: u64) -> ButtonPhase {
    match p {
        ButtonPhase::Idle => ButtonPhase::Settling { until: add_sat(now, SETTLE_MS) },
        ButtonPhase::Settling { .. } => p,
    }
}

/// The phase after a sequence of edges at the given times.
pub open spec fn after_edges(p: ButtonPhase, times: Seq<u64>) -> ButtonPhase
    decreases times.len(),
{
    if times.len() == 0 {
        p
    } else {
        after_edges(after_edge(p, times[0]), times.drop_first())
    }
}

/// The phase and report after the line is sampled at `level` at time `now`.
pub open spec fn after_sample(p: ButtonPhase, now: u64, level: Level) -> (ButtonPhase, Option<ButtonEvent>) {
    match p {
        ButtonPhase::Settling { until } => if now >= until {
            (ButtonPhase::Idle, Option::Some(event_of(level)))
        } else {
            (p, Option::None)
        },
        ButtonPhase::Idle => (p, Option::None),
    }
}

impl ButtonTask {
    pub fn new(line: usize) -> (r: ButtonTask)
        ensures
            r.line == line,
            r.phase == ButtonPhase::Idle,
    {
        ButtonTask { line, phase: ButtonPhase::Idle }
    }

    /// The condition the task is suspended on.
    pub fn wait(&self) -> (r: Wait)
        ensures
            self.phase == ButtonPhase::Idle ==> r == (Wait::Edge { line: self.line, kind: EdgeKind::Any }),
            self.phase matches ButtonPhase::Settling { until } ==> r == (Wait::Until { deadline: until }),
    {
        match self.phase {
            ButtonPhase::Idle => Wait::Edge { line: self.line, kind: EdgeKind::Any },
            ButtonPhase::Settling { until } => Wait::Until { deadline: until },
        }
    }

    /// An edge woke the task at time `now`: start the settle delay.
    pub fn on_edge(&mut self, now: u64)
        ensures
            final(self).line == old(self).line,
            final(self).phase == after_edge(old(self).phase, now),
    {
        if let ButtonPhase::Idle = self.phase {
            let until = now.saturating_add(SETTLE_MS);
            self.phase = ButtonPhase::Settling { until };
        }
    }

    /// The timer woke the task at time `now` and the line reads `level`.
    pub fn on_sample(&mut self, now: u64, level: Level) -> (r: Option<ButtonEvent>)
        ensures
            final(self).line == old(self).line,
            (final(self).phase, r) == after_sample(old(self).phase, now, level),
    {
        match self.phase {
            ButtonPhase::Settling { until } => {
                if now >= until {
                    self.phase = ButtonPhase::Idle;
                    Option::Some(if level.is_low() { ButtonEvent::Press } else { ButtonEvent::Release })
                } else {
                    Option::None
                }
            },
            ButtonPhase::Idle => Option::None,
        }
    }
}

/// Bounces during the settle window do not matter: after an edge, any
/// sequence of further edges leaves the task as the first edge left it, and
/// the report is the one implied by the level sampled once the window is over.
pub proof fn lemma_report_from_settled_level(start: u64, bounces: Seq<u64>, now: u64, level: Level)
    requires
        now >= add_sat(start, SETTLE_MS),
    ensures
        after_edges(after_edge(ButtonPhase::Idle, start), bounces) == after_edge(ButtonPhase::Idle, start),
        after_sample(after_edges(after_edge(ButtonPhase::Idle, start), bounces), now, level)
            == (ButtonPhase::Idle, Option::Some(event_of(level))),
{
    lemma_settling_ignores_edges(after_edge(ButtonPhase::Idle, start), bounces);
}

/// Edges that arrive while settling leave the phase unchanged.
pub proof fn lemma_settling_ignores_edges(p: ButtonPhase, times: Seq<u64>)
    requires
        p is Settling,
    ensures
        after_edges(p, times) == p,
    decreases times.len(),
{
    if times.len() > 0 {
        lemma_settling_ignores_edges(after_edge(p, times[0]), times.drop_first());
    }
}

/// A digital input that accepts a change of level only when at least the
/// settle interval has passed since the last accepted change.
#[derive(Clone, Copy, Debug, PartialEq, Eq, Structural)]
pub struct DebouncedInput {
    pub level: Level,
    pub changed_at: u64,
}

impl DebouncedInput {
    pub fn new(level: Level, now: u64) -> (r: DebouncedInput)
        ensures
            r.level == level,
            r.changed_at == now,
    {
        DebouncedInput { level, changed_at: now }
    }

    /// Offers a sample read at time `now`; returns whether it was accepted as a change.
    pub fn update(&mut self, level: Level, now: u64) -> (r: bool)
        ensures
            r == (level != old(self).level && now >= old(self).changed_at && now - old(self).changed_at >= SETTLE_MS),
            r ==> *final(self) == (DebouncedInput { level, changed_at: now }),
            !r ==> *final(self) == *old(self),
    {
        if level != self.level && now >= self.changed_at && now - self.changed_at >= SETTLE_MS {
            self.level = level;
            self.changed_at = now;
            true
        } else {
            false
        }
    }
}

} // verus!
