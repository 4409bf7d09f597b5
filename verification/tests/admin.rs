use rp2040_kbd::admin::{
    AdminState, CommandWindow, KeycoreToAdminMessage, PowerLed, RightAdminState,
    RightKeycoreToAdminMessage, SerialCommand, COMMAND_WINDOW,
};
use rp2040_kbd::keymap::KeymapLayer;
use rp2040_kbd::runtime::LoopCount;

fn feed(window: &mut CommandWindow, text: &[u8]) -> Option<SerialCommand> {
    let mut last = None;
    for b in text {
        last = window.push_byte(*b);
    }
    last
}

#[test]
fn admin_touch_wakes_and_reports_latency() {
    let mut a = AdminState::new();
    let s = a.step(Some(KeycoreToAdminMessage::TouchLeft(42)), 0, 5_000_000);
    assert!(s.wake);
    assert_eq!(s.left_latency, Some(42));
    assert_eq!(s.right_latency, None);
    assert!(!s.sleep);
    assert!(!s.reboot);
    let r = a.step(Some(KeycoreToAdminMessage::TouchRight(7)), 0, 5_000_001);
    assert!(r.wake);
    assert_eq!(r.right_latency, Some(7));
}

#[test]
fn admin_shows_queue_fill_only_when_it_changes() {
    let mut a = AdminState::new();
    assert_eq!(a.step(None, 0, 0).queue, None);
    assert_eq!(a.step(None, 3, 0).queue, Some(3));
    assert_eq!(a.step(None, 3, 0).queue, None);
    assert_eq!(a.step(None, 1, 0).queue, Some(1));
}

#[test]
fn admin_rx_count_starts_over_past_9999() {
    let mut a = AdminState::new();
    assert_eq!(a.step(Some(KeycoreToAdminMessage::Rx(9_000)), 0, 0).rx, Some(9_000));
    assert_eq!(a.step(Some(KeycoreToAdminMessage::Rx(999)), 0, 0).rx, Some(9_999));
    assert_eq!(a.step(Some(KeycoreToAdminMessage::Rx(5)), 0, 0).rx, Some(5));
}

#[test]
fn admin_sleeps_once_after_a_minute_and_skips_loops_while_asleep() {
    let mut a = AdminState::new();
    a.step(Some(KeycoreToAdminMessage::TouchLeft(1)), 0, 1_000_000);
    let lc = LoopCount {
        duration: 10,
        count: 2,
    };
    let awake = a.step(Some(KeycoreToAdminMessage::Loop(lc)), 0, 2_000_000);
    assert_eq!(awake.scan_loop.map(|l| l.count), Some(2));
    assert!(a.step(None, 0, 62_000_001).sleep);
    assert!(!a.step(None, 0, 63_000_000).sleep);
    let asleep = a.step(Some(KeycoreToAdminMessage::Loop(lc)), 0, 64_000_000);
    assert!(asleep.scan_loop.is_none());
    let woken = a.step(Some(KeycoreToAdminMessage::TouchRight(3)), 0, 65_000_000);
    assert!(woken.wake);
    assert!(!woken.sleep);
}

#[test]
fn admin_layer_change_and_reboot() {
    let mut a = AdminState::new();
    let l = a.step(Some(KeycoreToAdminMessage::LayerChange(KeymapLayer::Raise)), 0, 0);
    assert_eq!(l.layer, Some(KeymapLayer::Raise));
    let r = a.step(Some(KeycoreToAdminMessage::Reboot), 5, 100_000_000);
    assert!(r.reboot);
    assert_eq!(r.queue, None);
    assert!(!r.sleep);
}

#[test]
fn right_admin_counts_sent_bytes_wrapping() {
    let mut a = RightAdminState::new();
    let s = a.step(
        Some(RightKeycoreToAdminMessage::Touch {
            tx_bytes: 65_535,
            loop_duration: 12,
        }),
        0,
    );
    assert!(s.wake);
    assert_eq!(s.tx, Some(65_535));
    assert_eq!(s.latency, Some(12));
    let t = a.step(
        Some(RightKeycoreToAdminMessage::Touch {
            tx_bytes: 3,
            loop_duration: 1,
        }),
        10,
    );
    assert_eq!(t.tx, Some(2));
}

#[test]
fn right_admin_sleeps_and_reboots() {
    let mut a = RightAdminState::new();
    let lc = LoopCount {
        duration: 5,
        count: 1,
    };
    assert!(a.step(Some(RightKeycoreToAdminMessage::Loop(lc)), 0).scan_loop.is_some());
    assert!(a.step(None, 61_000_001).sleep);
    assert!(a.step(Some(RightKeycoreToAdminMessage::Loop(lc)), 61_000_002).scan_loop.is_none());
    let r = a.step(Some(RightKeycoreToAdminMessage::Reboot), 70_000_000);
    assert!(r.reboot);
}

#[test]
fn power_led_reports_when_pin_must_change() {
    let mut led = PowerLed::new(false);
    assert!(!led.is_on());
    assert!(led.turn_on());
    assert!(!led.turn_on());
    assert!(led.is_on());
    assert!(led.turn_off());
    assert!(!led.turn_off());
    assert!(!led.is_on());
}

#[test]
fn command_window_recognises_commands() {
    let mut w = CommandWindow::new();
    assert_eq!(feed(&mut w, b"xyzboot"), Some(SerialCommand::Boot));
    assert_eq!(feed(&mut w, b"output"), Some(SerialCommand::Output));
    assert_eq!(feed(&mut w, b"led"), Some(SerialCommand::Led));
    assert_eq!(feed(&mut w, b"CLOCK"), Some(SerialCommand::Clock));
    assert_eq!(feed(&mut w, b"clock"), None);
    assert_eq!(w.push_byte(b'b'), None);
}

#[test]
fn command_window_keeps_last_bytes_only() {
    let mut w = CommandWindow::new();
    feed(&mut w, b"bo");
    let filler = vec![b'x'; COMMAND_WINDOW];
    feed(&mut w, &filler);
    assert_eq!(feed(&mut w, b"ot"), None);
}
