use vstd::prelude::*;
use crate::time::add_sat;
use crate::scheduler::Wait;

verus! {

/// Smallest change of an axis, in ADC counts, that is reported is one above this.
pub const THRESHOLD: u16 = 20;

pub open spec fn abs_diff(a: u16, b: u16) -> int {
    if a >= b {
        a - b
    } else {
        b - a
    }
}

/// Whether `sample` moves far enough from the last reported value `reported`.
pub open spec fn exceeds(reported: u16, sample: u16) -> bool {
    abs_diff(reported, sample) > THRESHOLD
}

/// The changes reported for a sequence of samples, starting from `reported`.
pub open spec fn axis_changes(reported: u16, samples: Seq<u16>) -> Seq<bool>
    decreases samples.len(),
{
    if samples.len() == 0 {
        Seq::empty()
    } else {
        let changed = exceeds(reported, samples[0]);
        let next = if changed { samples[0] } else { reported };
        seq![changed] + axis_changes(next, samples.drop_first())
    }
}

/// One axis with hysteresis: keeps the last reported value.
#[derive(Clone, Copy, Debug, PartialEq, Eq, Structural)]
pub struct AxisFilter {
    pub reported: u16,
}

impl AxisFilter {
    pub fn new() -> (r: AxisFilter)
        ensures
            r.reported == 0,
    {
        AxisFilter { reported: 0 }
    }

    /// Offers a fresh sample; returns whether it changed the reported value.
    pub fn observe(&mut self, sample: u16) -> (r: bool)
        ensures
            r == exceeds(old(self).reported, sample),
            final(self).reported == if r { sample } else { old(self).reported },
    {
        let diff: u16 = if sample >= self.reported { sample - self.reported } else { self.reported - sample };
        if diff > THRESHOLD {
            self.reported = sample;
            true
        } else {
            false
        }
    }
}

/// Samples that stay within the threshold of the last reported value report
/// nothing, even where they drift step by step; the first sample beyond it is
/// reported, measured from the reported value and not from the previous sample.
pub proof fn lemma_first_beyond_threshold(reported: u16, samples: Seq<u16>, k: int)
    requires
        0 <= k <= samples.len(),
        forall|i: int| 0 <= i < k ==> !exceeds(reported, #[trigger] samples[i]),
    ensures
        axis_changes(reported, samples).len() == samples.len(),
        forall|i: int| 0 <= i < k ==> !(#[trigger] axis_changes(reported, samples)[i]),
        k < samples.len() && exceeds(reported, samples[k]) ==> axis_changes(reported, samples)[k],
    decreases k,
{
    lemma_axis_changes_len(reported, samples);
    if k > 0 {
        let rest = samples.drop_first();
        assert(!exceeds(reported, samples[0]));
        assert forall|i: int| 0 <= i < k - 1 implies !exceeds(reported, #[trigger] rest[i]) by {
            assert(rest[i] == samples[i + 1]);
        }
        lemma_first_beyond_threshold(reported, rest, k - 1);
        assert forall|i: int| 0 <= i < k implies !(#[trigger] axis_changes(reported, samples)[i]) by {
            if i > 0 {
                assert(axis_changes(reported, samples)[i] == axis_changes(reported, rest)[i - 1]);
            }
        }
        if k < samples.len() {
            assert(rest[k - 1] == samples[k]);
        }
    }
}

/// Samples whose consecutive values, and all values, stay within the
/// threshold of the reported value report no change on that axis.
pub proof fn lemma_small_steps_no_change(reported: u16, samples: Seq<u16>)
    requires
        forall|i: int| 0 < i < samples.len() ==> abs_diff(samples[i - 1], #[trigger] samples[i]) <= THRESHOLD,
        forall|i: int| 0 <= i < samples.len() ==> !exceeds(reported, #[trigger] samples[i]),
    ensures
        forall|i: int| 0 <= i < samples.len() ==> !(#[trigger] axis_changes(reported, samples)[i]),
{
    lemma_first_beyond_threshold(reported, samples, samples.len() as int);
}

pub proof fn lemma_axis_changes_len(reported: u16, samples: Seq<u16>)
    ensures
        axis_changes(reported, samples).len() == samples.len(),
    decreases samples.len(),
{
    if samples.len() > 0 {
        let next = if exceeds(reported, samples[0]) { samples[0] } else { reported };
        lemma_axis_changes_len(next, samples.drop_first());
    }
}

/// Pause between two joystick cycles, in milliseconds.
pub const SAMPLE_MS: u64 = 10;

/// A combined joystick report: the raw axis values and whether the button was freshly pressed.
#[derive(Clone, Copy, Debug, PartialEq, Eq, Structural)]
pub struct JoystickReport {
    pub x: u16,
    pub y: u16,
    pub pressed: bool,
}

/// Joystick task: two axes with hysteresis and a button reported on press.
#[derive(Clone, Copy, Debug, PartialEq, Eq, Structural)]
pub struct Joystick {
    pub x: AxisFilter,
    pub y: AxisFilter,
    pub was_pressed: bool,
    pub first: bool,
}

impl Joystick {
    pub fn new() -> (r: Joystick)
        ensures
            r.x.reported == 0,
            r.y.reported == 0,
            !r.was_pressed,
            r.first,
    {
        Joystick { x: AxisFilter::new(), y: AxisFilter::new(), was_pressed: false, first: true }
    }

    /// After a cycle that ended at `now`, reported or not, the task sleeps one pause.
    pub fn wait_after(now: u64) -> (r: Wait)
        ensures
            r == (Wait::Until { deadline: add_sat(now, SAMPLE_MS) }),
    {
        Wait::Until { deadline: now.saturating_add(SAMPLE_MS) }
    }

    /// One cycle: `sample` is the pair (x, y) read from the converter, or
    /// `None` where a read failed, in which case the cycle is skipped.
    /// `pressed` is whether the button line reads low. A report comes on the
    /// first cycle, when an axis moved beyond the threshold, or on a fresh press.
    pub fn poll(&mut self, sample: Option<(u16, u16)>, pressed: bool) -> (r: Option<JoystickReport>)
        ensures
            sample is None ==> r is None && *final(self) == *old(self),
            sample matches Option::Some((x, y)) ==> {
                let cx = exceeds(old(self).x.reported, x);
                let cy = exceeds(old(self).y.reported, y);
                let fresh = pressed && !old(self).was_pressed;
                &&& final(self).x.reported == (if cx { x } else { old(self).x.reported })
                &&& final(self).y.reported == (if cy { y } else { old(self).y.reported })
                &&& final(self).was_pressed == pressed
                &&& !final(self).first
                &&& r == if old(self).first || cx || cy || fresh {
                    Option::Some(JoystickReport { x, y, pressed: fresh })
                } else {
                    Option::None
                }
            },
    {
        match sample {
            Option::None => Option::None,
            Option::Some((x, y)) => {
                let cx = self.x.observe(x);
                let cy = self.y.observe(y);
                let fresh = pressed && !self.was_pressed;
                self.was_pressed = pressed;
                let report = self.first || cx || cy || fresh;
                self.first = false;
                if report {
                    Option::Some(JoystickReport { x, y, pressed: fresh })
                } else {
                    Option::None
                }
            },
        }
    }
}

} // verus!
