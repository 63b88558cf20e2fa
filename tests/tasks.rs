use task_core::blink::{BlinkTask, CounterTask};
use task_core::button::{ButtonEvent, ButtonPhase, ButtonTask, DebouncedInput};
use task_core::joystick::{AxisFilter, Joystick, JoystickReport};
use task_core::level::Level;
use task_core::poll::{PollPhase, PollTask};
use task_core::scan::BusScan;
use task_core::scheduler::{EdgeKind, Wait};

#[test]
fn button_reports_settled_level_despite_bounces() {
    let mut b = ButtonTask::new(21);
    assert_eq!(b.wait(), Wait::Edge { line: 21, kind: EdgeKind::Any });
    b.on_edge(100);
    assert_eq!(b.phase, ButtonPhase::Settling { until: 120 });
    for t in [101, 103, 107, 112, 119] {
        b.on_edge(t);
        assert_eq!(b.phase, ButtonPhase::Settling { until: 120 });
    }
    assert_eq!(b.wait(), Wait::Until { deadline: 120 });
    assert_eq!(b.on_sample(119, Level::High), None);
    assert_eq!(b.on_sample(120, Level::Low), Some(ButtonEvent::Press));
    assert_eq!(b.phase, ButtonPhase::Idle);
    b.on_edge(500);
    assert_eq!(b.on_sample(525, Level::High), Some(ButtonEvent::Release));
}

#[test]
fn button_bounce_that_reverses_reports_settled_level() {
    // Falling then rising edges within the window: the line settled high.
    let mut b = ButtonTask::new(0);
    b.on_edge(10);
    b.on_edge(12);
    assert_eq!(b.on_sample(30, Level::High), Some(ButtonEvent::Release));
}

#[test]
fn button_sample_while_idle_reports_nothing() {
    let mut b = ButtonTask::new(0);
    assert_eq!(b.on_sample(1000, Level::Low), None);
    assert_eq!(b.phase, ButtonPhase::Idle);
}

#[test]
fn button_settle_deadline_saturates() {
    let mut b = ButtonTask::new(0);
    b.on_edge(u64::MAX - 5);
    assert_eq!(b.phase, ButtonPhase::Settling { until: u64::MAX });
}

#[test]
fn debounced_input_needs_quiet_interval() {
    let mut d = DebouncedInput::new(Level::High, 0);
    assert!(!d.update(Level::Low, 19));
    assert_eq!(d.level, Level::High);
    assert!(d.update(Level::Low, 20));
    assert_eq!(d, DebouncedInput { level: Level::Low, changed_at: 20 });
    assert!(!d.update(Level::Low, 100));
    assert!(!d.update(Level::High, 39));
    assert!(d.update(Level::High, 40));
}

#[test]
fn axis_small_steps_do_not_report() {
    let mut a = AxisFilter::new();
    for s in [0u16, 5, 12, 20, 13, 1] {
        assert!(!a.observe(s));
    }
    assert_eq!(a.reported, 0);
}

#[test]
fn axis_threshold_is_measured_from_reported_value() {
    let mut a = AxisFilter::new();
    assert!(!a.observe(15));
    assert!(!a.observe(20));
    assert!(a.observe(30));
    assert_eq!(a.reported, 30);
    assert!(!a.observe(50));
    assert!(a.observe(51));
    assert!(a.observe(30));
    assert!(a.observe(u16::MAX));
    assert!(a.observe(0));
}

#[test]
fn axis_exactly_threshold_is_not_a_change() {
    let mut a = AxisFilter { reported: 1000 };
    assert!(!a.observe(1020));
    assert!(!a.observe(980));
    assert!(a.observe(979));
}

#[test]
fn joystick_reports_first_cycle_then_only_changes() {
    let mut j = Joystick::new();
    assert_eq!(
        j.poll(Some((2000, 1900)), false),
        Some(JoystickReport { x: 2000, y: 1900, pressed: false })
    );
    assert_eq!(j.poll(Some((2010, 1890)), false), None);
    assert_eq!(
        j.poll(Some((2010, 1850)), false),
        Some(JoystickReport { x: 2010, y: 1850, pressed: false })
    );
    assert_eq!(j.y.reported, 1850);
    assert_eq!(j.x.reported, 2000);
}

#[test]
fn joystick_button_reports_on_fresh_press_only() {
    let mut j = Joystick::new();
    j.poll(Some((0, 0)), false);
    assert_eq!(j.poll(Some((0, 0)), true), Some(JoystickReport { x: 0, y: 0, pressed: true }));
    assert_eq!(j.poll(Some((0, 0)), true), None);
    assert_eq!(j.poll(Some((0, 0)), false), None);
    assert_eq!(j.poll(Some((0, 0)), true), Some(JoystickReport { x: 0, y: 0, pressed: true }));
}

#[test]
fn joystick_failed_read_skips_cycle() {
    let mut j = Joystick::new();
    j.poll(Some((100, 100)), false);
    let before = j;
    assert_eq!(j.poll(None, true), None);
    assert_eq!(j, before);
    assert_eq!(Joystick::wait_after(50), Wait::Until { deadline: 60 });
}

#[test]
fn blink_pattern_over_two_seconds() {
    let mut b = BlinkTask::new(0);
    let mut seen = Vec::new();
    for t in 0..2000u64 {
        b.on_timer(t);
        seen.push(b.level);
    }
    for (t, l) in seen.iter().enumerate() {
        let want = if t % 1000 < 200 { Level::High } else { Level::Low };
        assert_eq!(*l, want, "at {t} ms");
    }
    assert_eq!(b.deadline, 2000);
}

#[test]
fn blink_switches_only_at_deadlines() {
    let mut b = BlinkTask::new(1000);
    assert_eq!(b.wait(), Wait::Until { deadline: 1200 });
    assert_eq!(b.on_timer(1199), None);
    assert_eq!(b.on_timer(1205), Some(Level::Low));
    assert_eq!(b.deadline, 2000);
    assert_eq!(b.on_timer(2000), Some(Level::High));
    assert_eq!(b.deadline, 2200);
}

#[test]
fn counter_wraps_after_255() {
    let mut c = CounterTask::new(0);
    let mut shown = Vec::new();
    let mut now = 0u64;
    for _ in 0..258 {
        if let Some(v) = c.on_timer(now) {
            shown.push(v);
        }
        assert_eq!(c.on_timer(now + 1), None);
        assert_eq!(c.wait(), Wait::Until { deadline: now + 500 });
        now += 500;
    }
    assert_eq!(shown.len(), 258);
    assert_eq!(&shown[254..], &[254, 255, 0, 1]);
}

#[test]
fn poll_with_always_failing_bus_keeps_schedule() {
    let mut p = PollTask::new(500, 0);
    let mut now = 0u64;
    for _ in 0..10_000 {
        assert!(p.on_timer(now));
        assert_eq!(p.phase, PollPhase::Transacting);
        let w = p.on_outcome(now + 3, false);
        assert_eq!(w, Wait::Until { deadline: now + 503 });
        assert_eq!(p, PollTask { interval: 500, phase: PollPhase::Sleeping { until: now + 503 } });
        assert!(!p.on_timer(now + 502));
        now += 503;
    }
}

#[test]
fn poll_outcome_does_not_change_schedule() {
    let mut a = PollTask::new(50, 10);
    let mut b = a;
    assert!(a.on_timer(10));
    assert!(b.on_timer(12));
    assert_eq!(a.on_outcome(20, true), b.on_outcome(20, false));
    assert_eq!(a, b);
}

#[test]
fn poll_outcome_while_sleeping_is_ignored() {
    let mut p = PollTask::new(100, 0);
    let w = p.on_outcome(5, true);
    assert_eq!(w, Wait::Until { deadline: 0 });
    assert_eq!(p.wait(), Wait::Until { deadline: 0 });
}

fn run_scan(acks: &[u8]) -> Vec<u8> {
    let mut s = BusScan::new();
    let mut probed = Vec::new();
    while let Some(a) = s.next_address() {
        probed.push(a);
        s.record(acks.contains(&a));
    }
    assert!(s.is_done());
    assert_eq!(probed, (0x08..=0x77).collect::<Vec<u8>>());
    s.found().clone()
}

#[test]
fn scan_finds_exactly_the_acknowledging_devices() {
    assert_eq!(run_scan(&[0x1E, 0x3C]), vec![0x1E, 0x3C]);
    assert_eq!(run_scan(&[0x3C, 0x1E]), vec![0x1E, 0x3C]);
}

#[test]
fn scan_ignores_addresses_outside_range_and_edges() {
    assert_eq!(run_scan(&[0x00, 0x07, 0x78, 0x7F]), Vec::<u8>::new());
    assert_eq!(run_scan(&[0x08, 0x77]), vec![0x08, 0x77]);
    assert_eq!(run_scan(&(0..=0x7F).collect::<Vec<u8>>()).len(), 112);
}

#[test]
fn scan_record_after_done_is_ignored() {
    let mut s = BusScan::new();
    while s.next_address().is_some() {
        s.record(false);
    }
    s.record(true);
    assert!(s.found().is_empty());
    assert_eq!(s.next_address(), None);
}
