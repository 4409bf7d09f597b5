use rp2040_kbd::debounce::{JitterRegulator, PinDebouncer};
use rp2040_kbd::runtime::{LoopCounter, SleepCountdown, FALLBACK_LOOP_MICROS};
use rp2040_kbd::time::waited_nanos;

#[test]
fn debouncer_accepts_first_and_late_changes() {
    let mut d = PinDebouncer::new();
    assert_eq!(d.diff_last(100), None);
    assert!(d.try_submit(1_000, true));
    assert_eq!(d.diff_last(1_500), Some(500));
    assert!(d.try_submit(11_000, false));
    assert_eq!(d.diff_last(11_000), Some(0));
}

#[test]
fn debouncer_quarantines_early_changes() {
    let mut d = PinDebouncer::new();
    assert!(d.try_submit(0, true));
    assert!(!d.try_submit(9_999, false));
    // The same early state again does not move the quarantine start.
    assert!(!d.try_submit(12_000, false));
    assert_eq!(d.diff_last(12_000), Some(2_001));
    assert!(d.try_submit(20_000, false));
}

#[test]
fn debouncer_accepts_when_clock_reads_earlier() {
    let mut d = PinDebouncer::new();
    assert!(d.try_submit(5_000, true));
    assert_eq!(d.diff_last(4_000), None);
    assert!(d.try_submit(4_000, false));
}

#[test]
fn jitter_regulator_releases_quarantined_state() {
    let mut j = JitterRegulator::new();
    assert!(j.try_submit(0, true));
    assert_eq!(j.try_release_quarantined(1_000), None);
    assert!(!j.try_submit(5_000, false));
    // The threshold is ten thousand whole milliseconds.
    assert_eq!(j.try_release_quarantined(5_000 + 9_999_999), None);
    assert_eq!(j.try_release_quarantined(5_000 + 10_000_000), Some(false));
    assert_eq!(j.try_release_quarantined(5_000 + 20_000_000), None);
    assert!(j.try_submit(5_000 + 20_000_000, true));
}

#[test]
fn sleep_after_a_minute_without_touch() {
    let mut s = SleepCountdown::new();
    assert!(s.is_awake());
    s.touch(1_000_000);
    assert!(!s.should_sleep(61_000_000));
    assert!(!s.should_sleep(61_999_999));
    assert!(s.should_sleep(62_000_000));
    s.set_sleeping();
    assert!(!s.is_awake());
    assert!(!s.should_sleep(100_000_000));
    s.touch(100_000_000);
    assert!(s.is_awake());
    assert!(!s.should_sleep(100_000_001));
}

#[test]
fn sleep_not_due_when_clock_reads_earlier() {
    let mut s = SleepCountdown::new();
    s.touch(500_000_000);
    assert!(!s.should_sleep(1_000));
}

#[test]
fn loop_counter_reports_every_n_loops() {
    let mut c: LoopCounter<3> = LoopCounter::new(1_000);
    assert!(!c.increment());
    assert!(!c.increment());
    assert!(c.increment());
    let v = c.value(4_000);
    assert_eq!(v.count, 3);
    assert_eq!(v.duration, 3_000);
    c.reset(4_000);
    assert_eq!(c.value(4_500).count, 0);
    assert_eq!(c.value(4_500).duration, 500);
    assert_eq!(c.value(3_000).duration, FALLBACK_LOOP_MICROS);
}

#[test]
fn waited_nanos_counts_whole_microseconds() {
    assert!(!waited_nanos(1_000, 1_000, 250));
    assert!(waited_nanos(1_000, 1_001, 250));
    assert!(waited_nanos(1_000, 1_001, 1_000));
    assert!(!waited_nanos(1_000, 1_001, 1_001));
    assert!(!waited_nanos(1_000, 999, 0));
    assert!(waited_nanos(u64::MAX, 0, 1_000));
}

#[test]
fn accepted_changes_are_at_least_ten_ms_apart() {
    let mut d = PinDebouncer::new();
    let mut state = false;
    let mut accepted = Vec::new();
    let mut t = 0u64;
    let mut k = 0u64;
    while t < 200_000 {
        state = !state;
        if d.try_submit(t, state) {
            accepted.push(t);
        }
        // Bounces 3 ms apart, now and then a pause of 12 ms.
        t += if k % 3 == 2 { 12_000 } else { 3_000 };
        k += 1;
    }
    assert_eq!(accepted[0], 0);
    assert!(accepted.len() > 1);
    for w in accepted.windows(2) {
        assert!(w[1] - w[0] >= 10_000);
    }
}
