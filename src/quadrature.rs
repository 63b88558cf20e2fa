use vstd::prelude::*;
use rotary_encoder_hal::Phase;
use crate::level::Level;
use crate::scheduler::{EdgeKind, Wait};

verus! {

/// Direction reported by the quadrature decoder.
#[derive(Clone, Copy, Debug, PartialEq, Eq, Structural)]
pub enum Rotation {
    Clockwise,
    CounterClockwise,
    NoChange,
}

/// Number of valid transitions in one direction that make up one detent.
pub const TRANSITIONS_PER_DETENT: i8 = 4;

/// Two-bit code of a sample: bit 0 is set when line A is low, bit 1 when line B is low.
pub open spec fn sample_code(a: Level, b: Level) -> nat {
    (if a == Level::Low { 1nat } else { 0nat }) + (if b == Level::Low { 2nat } else { 0nat })
}

/// Classification of a transition `s = old + 4 * new` of two-bit codes.
pub open spec fn phase_of(s: nat) -> Rotation {
    if s == 1 || s == 7 || s == 8 || s == 14 {
        Rotation::Clockwise
    } else if s == 2 || s == 4 || s == 11 || s == 13 {
        Rotation::CounterClockwise
    } else {
        Rotation::NoChange
    }
}

/// Classification of the transition from code `prev` to the sample `(a, b)`.
pub open spec fn transition_of(prev: nat, a: Level, b: Level) -> Rotation {
    phase_of(prev + 4 * sample_code(a, b))
}

/// Relies on rotary_encoder_hal's `DefaultPhase::direction` (default features):
/// it classifies a four-bit transition by the fixed table that `phase_of` states.
#[verifier::external_body]
fn classify_transition(s: u8) -> (r: Rotation)
    requires
        s < 16,
    ensures
        r == phase_of(s as nat),
{
    match rotary_encoder_hal::DefaultPhase.direction(s) {
        rotary_encoder_hal::Direction::Clockwise => Rotation::Clockwise,
        rotary_encoder_hal::Direction::CounterClockwise => Rotation::CounterClockwise,
        rotary_encoder_hal::Direction::None => Rotation::NoChange,
    }
}

/// Abstract state of a decoder: the code of the last sample and the signed
/// number of valid transitions seen since the last reported detent.
pub struct DecoderModel {
    pub code: nat,
    pub count: int,
}

/// Quadrature decoder that reports one direction per detent.
pub struct QuadratureDecoder {
    code: u8,
    count: i8,
}

impl View for QuadratureDecoder {
    type V = DecoderModel;

    closed spec fn view(&self) -> DecoderModel {
        DecoderModel { code: self.code as nat, count: self.count as int }
    }
}

impl DecoderModel {
    pub open spec fn wf(self) -> bool {
        &&& self.code < 4
        &&& -4 < self.count < 4
    }

    /// One sample: the next model and the direction reported for it.
    pub open spec fn step(self, a: Level, b: Level) -> (DecoderModel, Rotation) {
        let code = sample_code(a, b);
        let count = match transition_of(self.code, a, b) {
            Rotation::Clockwise => self.count + 1,
            Rotation::CounterClockwise => self.count - 1,
            Rotation::NoChange => self.count,
        };
        if count == 4 {
            (DecoderModel { code, count: 0 }, Rotation::Clockwise)
        } else if count == -4 {
            (DecoderModel { code, count: 0 }, Rotation::CounterClockwise)
        } else {
            (DecoderModel { code, count }, Rotation::NoChange)
        }
    }

    /// The directions reported for a sequence of samples.
    pub open spec fn run(self, samples: Seq<(Level, Level)>) -> Seq<Rotation>
        decreases samples.len(),
    {
        if samples.len() == 0 {
            Seq::empty()
        } else {
            let (next, r) = self.step(samples[0].0, samples[0].1);
            seq![r] + next.run(samples.drop_first())
        }
    }
}

/// The code that precedes sample `i` of `samples`, starting from `first`.
pub open spec fn code_before(first: nat, samples: Seq<(Level, Level)>, i: int) -> nat {
    if i == 0 {
        first
    } else {
        sample_code(samples[i - 1].0, samples[i - 1].1)
    }
}

/// One full detent cycle, four valid transitions in one direction from a decoder
/// at rest, reports that direction exactly once, on the last transition; no
/// proper prefix of the cycle reports anything.
pub proof fn lemma_one_detent_one_report(m: DecoderModel, samples: Seq<(Level, Level)>, dir: Rotation)
    requires
        m.wf(),
        m.count == 0,
        dir != Rotation::NoChange,
        samples.len() == 4,
        forall|i: int| 0 <= i < 4 ==> transition_of(code_before(m.code, samples, i), #[trigger] samples[i].0, samples[i].1) == dir,
    ensures
        m.run(samples) == seq![Rotation::NoChange, Rotation::NoChange, Rotation::NoChange, dir],
        forall|k: int, j: int| 0 <= j < k < 4 ==> (#[trigger] m.run(samples.take(k))[j]) == Rotation::NoChange,
{
    assert(transition_of(code_before(m.code, samples, 0), samples[0].0, samples[0].1) == dir);
    assert(transition_of(code_before(m.code, samples, 1), samples[1].0, samples[1].1) == dir);
    assert(transition_of(code_before(m.code, samples, 2), samples[2].0, samples[2].1) == dir);
    assert(transition_of(code_before(m.code, samples, 3), samples[3].0, samples[3].1) == dir);
    let m1 = m.step(samples[0].0, samples[0].1).0;
    let m2 = m1.step(samples[1].0, samples[1].1).0;
    let m3 = m2.step(samples[2].0, samples[2].1).0;
    let m4 = m3.step(samples[3].0, samples[3].1).0;
    let s1 = samples.drop_first();
    let s2 = s1.drop_first();
    let s3 = s2.drop_first();
    let s4 = s3.drop_first();
    assert(s1[0] == samples[1] && s2[0] == samples[2] && s3[0] == samples[3]);
    assert(s4.len() == 0);
    assert(m3.run(s3) == seq![dir] + m4.run(s4));
    assert(m2.run(s2) == seq![Rotation::NoChange] + m3.run(s3));
    assert(m1.run(s1) == seq![Rotation::NoChange] + m2.run(s2));
    assert(m.run(samples) == seq![Rotation::NoChange] + m1.run(s1));
    assert(m.run(samples) =~= seq![Rotation::NoChange, Rotation::NoChange, Rotation::NoChange, dir]);
    assert forall|k: int, j: int| 0 <= j < k < 4 implies (#[trigger] m.run(samples.take(k))[j]) == Rotation::NoChange by {
        lemma_run_prefix(m, samples, k);
    }
}

/// One direction is reported per sample.
pub proof fn lemma_run_len(m: DecoderModel, samples: Seq<(Level, Level)>)
    ensures
        m.run(samples).len() == samples.len(),
    decreases samples.len(),
{
    if samples.len() > 0 {
        lemma_run_len(m.step(samples[0].0, samples[0].1).0, samples.drop_first());
    }
}

/// What a prefix of the samples reports is the prefix of what all of them report.
pub proof fn lemma_run_prefix(m: DecoderModel, samples: Seq<(Level, Level)>, k: int)
    requires
        0 <= k <= samples.len(),
    ensures
        m.run(samples.take(k)) == m.run(samples).take(k),
    decreases k,
{
    if k == 0 {
        assert(m.run(samples).take(0) =~= Seq::<Rotation>::empty());
    } else {
        let next = m.step(samples[0].0, samples[0].1).0;
        lemma_run_prefix(next, samples.drop_first(), k - 1);
        lemma_run_len(next, samples.drop_first());
        assert(samples.take(k).drop_first() =~= samples.drop_first().take(k - 1));
        assert(samples.take(k)[0] == samples[0]);
        let r = m.step(samples[0].0, samples[0].1).1;
        assert(m.run(samples.take(k)) == seq![r] + next.run(samples.drop_first().take(k - 1)));
        assert(m.run(samples) == seq![r] + next.run(samples.drop_first()));
        assert(m.run(samples.take(k)) =~= m.run(samples).take(k));
    }
}

impl QuadratureDecoder {
    pub fn new() -> (r: QuadratureDecoder)
        ensures
            r@ == (DecoderModel { code: 0, count: 0 }),
    {
        QuadratureDecoder { code: 0, count: 0 }
    }

    pub open spec fn wf(&self) -> bool {
        self@.wf()
    }

    /// Feeds the levels of lines A and B sampled after an edge.
    pub fn update(&mut self, a: Level, b: Level) -> (r: Rotation)
        requires
            old(self).wf(),
        ensures
            final(self).wf(),
            (final(self)@, r) == old(self)@.step(a, b),
    {
        let code: u8 = (if a.is_low() { 1u8 } else { 0u8 }) + (if b.is_low() { 2u8 } else { 0u8 });
        let dir = classify_transition(self.code + 4 * code);
        let count: i8 = match dir {
            Rotation::Clockwise => self.count + 1,
            Rotation::CounterClockwise => self.count - 1,
            Rotation::NoChange => self.count,
        };
        self.code = code;
        if count == TRANSITIONS_PER_DETENT {
            self.count = 0;
            Rotation::Clockwise
        } else if count == -TRANSITIONS_PER_DETENT {
            self.count = 0;
            Rotation::CounterClockwise
        } else {
            self.count = count;
            Rotation::NoChange
        }
    }
}

/// Rotary encoder task: decodes the two lines on each edge and keeps a
/// position counter, one step per detent.
pub struct RotaryTask {
    pub line_a: usize,
    pub line_b: usize,
    pub decoder: QuadratureDecoder,
    pub position: i32,
}

/// The position after a reported direction; it wraps at the ends of `i32`.
pub open spec fn moved(position: i32, r: Rotation) -> i32 {
    match r {
        Rotation::Clockwise => if position == i32::MAX { i32::MIN } else { (position + 1) as i32 },
        Rotation::CounterClockwise => if position == i32::MIN { i32::MAX } else { (position - 1) as i32 },
        Rotation::NoChange => position,
    }
}

impl RotaryTask {
    pub fn new(line_a: usize, line_b: usize) -> (r: RotaryTask)
        ensures
            r.line_a == line_a,
            r.line_b == line_b,
            r.decoder@ == (DecoderModel { code: 0, count: 0 }),
            r.position == 0,
    {
        RotaryTask { line_a, line_b, decoder: QuadratureDecoder::new(), position: 0 }
    }

    /// The task waits for any edge on either line.
    pub fn wait(&self) -> (r: Wait)
        ensures
            r == (Wait::EitherEdge { first: self.line_a, second: self.line_b, kind: EdgeKind::Any }),
    {
        Wait::EitherEdge { first: self.line_a, second: self.line_b, kind: EdgeKind::Any }
    }

    /// An edge woke the task and the lines read `a` and `b`. Returns the new
    /// position when a detent was completed.
    pub fn on_edge(&mut self, a: Level, b: Level) -> (r: Option<i32>)
        requires
            old(self).decoder.wf(),
        ensures
            final(self).decoder.wf(),
            final(self).line_a == old(self).line_a,
            final(self).line_b == old(self).line_b,
            final(self).decoder@ == old(self).decoder@.step(a, b).0,
            final(self).position == moved(old(self).position, old(self).decoder@.step(a, b).1),
            r == if old(self).decoder@.step(a, b).1 == Rotation::NoChange {
                Option::<i32>::None
            } else {
                Option::Some(final(self).position)
            },
    {
        match self.decoder.update(a, b) {
            Rotation::Clockwise => {
                self.position = self.position.wrapping_add(1);
                Option::Some(self.position)
            },
            Rotation::CounterClockwise => {
                self.position = self.position.wrapping_sub(1);
                Option::Some(self.position)
            },
            Rotation::NoChange => Option::None,
        }
    }
}

} // verus!
