use task_core::level::Level;
use task_core::quadrature::{QuadratureDecoder, Rotation, RotaryTask};
use task_core::scheduler::{EdgeKind, Wait};

const H: Level = Level::High;
const L: Level = Level::Low;

fn feed(d: &mut QuadratureDecoder, samples: &[(Level, Level)]) -> Vec<Rotation> {
    samples.iter().map(|&(a, b)| d.update(a, b)).collect()
}

// Codes 0 -> 2 -> 3 -> 1 -> 0 (bit 0: A low, bit 1: B low).
const CW_CYCLE: [(Level, Level); 4] = [(H, L), (L, L), (L, H), (H, H)];
// Codes 0 -> 1 -> 3 -> 2 -> 0.
const CCW_CYCLE: [(Level, Level); 4] = [(L, H), (L, L), (H, L), (H, H)];

#[test]
fn clockwise_detent_reports_once_at_the_end() {
    let mut d = QuadratureDecoder::new();
    let out = feed(&mut d, &CW_CYCLE);
    assert_eq!(
        out,
        vec![Rotation::NoChange, Rotation::NoChange, Rotation::NoChange, Rotation::Clockwise]
    );
}

#[test]
fn counter_clockwise_detent_reports_once_at_the_end() {
    let mut d = QuadratureDecoder::new();
    let out = feed(&mut d, &CCW_CYCLE);
    assert_eq!(
        out,
        vec![Rotation::NoChange, Rotation::NoChange, Rotation::NoChange, Rotation::CounterClockwise]
    );
}

#[test]
fn proper_prefixes_report_nothing() {
    for k in 0..4 {
        let mut d = QuadratureDecoder::new();
        let out = feed(&mut d, &CW_CYCLE[..k]);
        assert!(out.iter().all(|r| *r == Rotation::NoChange));
    }
}

#[test]
fn two_detents_report_twice() {
    let mut d = QuadratureDecoder::new();
    let mut out = feed(&mut d, &CW_CYCLE);
    out.extend(feed(&mut d, &CW_CYCLE));
    let reports: Vec<Rotation> = out.into_iter().filter(|r| *r != Rotation::NoChange).collect();
    assert_eq!(reports, vec![Rotation::Clockwise, Rotation::Clockwise]);
}

#[test]
fn single_transitions_are_classified_by_the_table() {
    // 0 -> 2 is clockwise, 0 -> 1 counter-clockwise: after three of one and
    // a fourth, only the direction of the four is reported.
    let mut d = QuadratureDecoder::new();
    assert_eq!(d.update(H, L), Rotation::NoChange);
    assert_eq!(d.update(H, H), Rotation::NoChange); // 2 -> 0: counter-clockwise, back to zero
    let out = feed(&mut d, &CW_CYCLE[..3]);
    assert!(out.iter().all(|r| *r == Rotation::NoChange));
    assert_eq!(d.update(H, H), Rotation::Clockwise);
}

#[test]
fn bounce_back_and_forth_cancels() {
    let mut d = QuadratureDecoder::new();
    let mut out = Vec::new();
    for _ in 0..10 {
        out.push(d.update(H, L));
        out.push(d.update(H, H));
    }
    assert!(out.iter().all(|r| *r == Rotation::NoChange));
    assert_eq!(feed(&mut d, &CCW_CYCLE)[3], Rotation::CounterClockwise);
}

#[test]
fn skipped_transition_is_ignored() {
    let mut d = QuadratureDecoder::new();
    // 0 -> 3 skips a state: no direction, no count.
    assert_eq!(d.update(L, L), Rotation::NoChange);
    // 3 -> 1 -> 0 -> 2 -> 3 is a clockwise cycle from code 3.
    let out = feed(&mut d, &[(L, H), (H, H), (H, L), (L, L)]);
    assert_eq!(out[3], Rotation::Clockwise);
}

#[test]
fn repeated_sample_is_no_change() {
    let mut d = QuadratureDecoder::new();
    for _ in 0..8 {
        assert_eq!(d.update(H, H), Rotation::NoChange);
    }
}

#[test]
fn rotary_task_counts_detents() {
    let mut t = RotaryTask::new(18, 19);
    let mut last = None;
    for &(a, b) in CW_CYCLE.iter() {
        last = t.on_edge(a, b);
    }
    assert_eq!(last, Some(1));
    for &(a, b) in CCW_CYCLE.iter().chain(CCW_CYCLE.iter()) {
        last = t.on_edge(a, b);
    }
    assert_eq!(last, Some(-1));
    assert_eq!(t.position, -1);
    assert_eq!(t.on_edge(H, H), None);
}

#[test]
fn rotary_task_waits_on_either_line() {
    let t = RotaryTask::new(18, 19);
    assert_eq!(t.wait(), Wait::EitherEdge { first: 18, second: 19, kind: EdgeKind::Any });
}
