//! Throttle detection.

use outline_ss_rust::throughput_monitor::{
    half_full, window_is_throttled, ThrottleDetectParams, ThrottleTick, ThroughputMonitor,
};

const RATIO: f64 = 2.0;

fn params_on() -> ThrottleDetectParams {
    ThrottleDetectParams {
        enabled: true,
        min_in_bytes_per_sec: 1_000_000,
        ..ThrottleDetectParams::default()
    }
}

fn throttled(in_rate: u64, out_rate: u64, backlog: bool, p: &ThrottleDetectParams) -> bool {
    let outruns = in_rate as f64 >= RATIO * out_rate as f64;
    window_is_throttled(in_rate, outruns, backlog, p)
}

#[test]
fn disabled_never_triggers() {
    let p = ThrottleDetectParams { enabled: false, ..params_on() };
    assert!(!throttled(50_000_000, 0, true, &p));
}

#[test]
fn triggers_when_inbound_outruns_outbound_with_backlog() {
    let p = params_on();
    assert!(throttled(10_000_000, 1_000_000, true, &p));
}

#[test]
fn no_trigger_without_backlog() {
    let p = params_on();
    assert!(!throttled(10_000_000, 1_000_000, false, &p));
}

#[test]
fn no_trigger_below_min_inbound_floor() {
    let p = params_on();
    assert!(!throttled(500_000, 1_000, true, &p));
}

#[test]
fn no_trigger_when_ratio_not_met() {
    let p = params_on();
    assert!(!throttled(3_000_000, 2_000_000, true, &p));
}

#[test]
fn zero_outbound_with_backlog_and_inbound_triggers() {
    let p = params_on();
    assert!(throttled(5_000_000, 0, true, &p));
}

#[test]
fn counters_accumulate() {
    let mut m = ThroughputMonitor::new(params_on());
    m.add_inbound(100);
    m.add_inbound(50);
    m.add_outbound(40);
    m.note_backlog();
    assert_eq!(m.in_bytes, 150);
    assert_eq!(m.out_bytes, 40);
    assert!(m.backlog_seen);
    assert_eq!(*m.params(), params_on());
}

#[test]
fn the_defaults_are_off() {
    let p = ThrottleDetectParams::default();
    assert!(!p.enabled);
    assert_eq!((p.window_ms, p.sustain_windows), (1000, 5));
    assert_eq!((p.min_in_bytes_per_sec, p.signal_cooldown_ms), (1_000_000, 30_000));
}

#[test]
fn a_datagram_counts_and_marks_a_half_full_queue() {
    let mut m = ThroughputMonitor::new(params_on());
    m.note_datagram(10, 3, 8);
    assert!(!m.backlog_seen);
    m.note_datagram(10, 4, 8);
    assert!(m.backlog_seen);
    assert_eq!(m.in_bytes, 20);
    assert!(half_full(usize::MAX, usize::MAX));
    assert!(half_full(0, 0));
}

#[test]
fn a_window_is_what_came_since_the_last_one() {
    let mut m = ThroughputMonitor::new(params_on());
    m.add_inbound(5);
    let mut tick = ThrottleTick::new(&m);
    m.add_inbound(100);
    m.add_outbound(30);
    m.note_backlog();
    let window = tick.sample(&mut m);
    assert_eq!((window.in_bytes, window.out_bytes, window.backlog), (100, 30, true));
    let window = tick.sample(&mut m);
    assert_eq!((window.in_bytes, window.out_bytes, window.backlog), (0, 0, false));
}

#[test]
fn a_signal_needs_sustained_windows_and_a_cooldown() {
    let p = ThrottleDetectParams { sustain_windows: 3, signal_cooldown_ms: 10_000, ..params_on() };
    let mut tick = ThrottleTick::new(&ThroughputMonitor::new(p));
    assert!(!tick.judge(true, 1_000, &p));
    assert!(!tick.judge(true, 2_000, &p));
    assert!(!tick.judge(false, 3_000, &p), "a clean window starts the count over");
    assert!(!tick.judge(true, 4_000, &p));
    assert!(!tick.judge(true, 5_000, &p));
    assert!(tick.judge(true, 6_000, &p));
    for now in [7_000, 8_000, 9_000, 15_999] {
        assert!(!tick.judge(true, now, &p), "the cooldown holds it back");
    }
    assert!(tick.judge(true, 16_000, &p));
    assert_eq!(tick.last_signal_ms, Some(16_000));
}
