use rp2040_kbd::admin::{KeycoreToAdminMessage, RightKeycoreToAdminMessage};
use rp2040_kbd::hid::SubmitGate;
use rp2040_kbd::keycore::{right_touch_message, touch_messages, KeycoreTally};
use rp2040_kbd::runtime::FALLBACK_LOOP_MICROS;

fn describe(msgs: &[KeycoreToAdminMessage]) -> Vec<(char, u64)> {
    msgs.iter()
        .map(|m| match m {
            KeycoreToAdminMessage::TouchLeft(d) => ('l', *d),
            KeycoreToAdminMessage::TouchRight(d) => ('r', *d),
            _ => ('?', 0),
        })
        .collect()
}

#[test]
fn pending_bytes_start_over_only_when_taken() {
    let mut t: KeycoreTally<3> = KeycoreTally::new(100);
    assert_eq!(t.pending_report(), None);
    t.add_bytes(1);
    t.add_bytes(2);
    assert_eq!(t.pending_report(), Some(3));
    // The queue refused the message: the count stays and grows.
    t.add_bytes(1);
    assert_eq!(t.pending_report(), Some(4));
    t.pending_taken();
    assert_eq!(t.pending_report(), None);
}

#[test]
fn loops_are_reported_every_n_and_restart_when_taken() {
    let mut t: KeycoreTally<3> = KeycoreTally::new(1_000);
    assert!(t.count_loop(1_100).is_none());
    assert!(t.count_loop(1_200).is_none());
    let lc = t.count_loop(1_300).unwrap();
    assert_eq!(lc.count, 3);
    assert_eq!(lc.duration, 300);
    // Refused: the next loop is counted on from the same start.
    let again = t.count_loop(1_400).unwrap();
    assert_eq!(again.count, 4);
    assert_eq!(again.duration, 400);
    t.loops_taken(1_400);
    assert_eq!(t.loops_counted(), 0);
    assert!(t.count_loop(1_500).is_none());
    assert_eq!(t.loops_counted(), 1);
}

#[test]
fn loop_duration_falls_back_when_clock_reads_earlier() {
    let mut t: KeycoreTally<1> = KeycoreTally::new(5_000);
    assert_eq!(t.count_loop(4_000).unwrap().duration, FALLBACK_LOOP_MICROS);
}

#[test]
fn touch_messages_carry_the_loop_duration() {
    assert_eq!(describe(&touch_messages(10, 52, true, true)), vec![('l', 42), ('r', 42)]);
    assert_eq!(describe(&touch_messages(10, 52, false, true)), vec![('r', 42)]);
    assert!(touch_messages(10, 52, false, false).is_empty());
    assert!(touch_messages(52, 10, true, true).is_empty());
}

#[test]
fn right_touch_message_counts_zero_when_clock_reads_earlier() {
    match right_touch_message(7, 100, 130) {
        RightKeycoreToAdminMessage::Touch {
            tx_bytes,
            loop_duration,
        } => {
            assert_eq!(tx_bytes, 7);
            assert_eq!(loop_duration, 30);
        }
        _ => panic!("not a touch"),
    }
    match right_touch_message(1, 130, 100) {
        RightKeycoreToAdminMessage::Touch { loop_duration, .. } => assert_eq!(loop_duration, 0),
        _ => panic!("not a touch"),
    }
}

#[test]
fn gate_lets_one_report_through_between_polls() {
    let mut g = SubmitGate::new();
    let pushed: usize = (0..5).filter(|_| g.try_submit_report()).count();
    assert_eq!(pushed, 1);
    g.poll();
    g.poll();
    let pushed: usize = (0..5).filter(|_| g.try_submit_report()).count();
    assert_eq!(pushed, 1);
}

#[test]
fn pending_and_taken_bytes_add_up_to_received() {
    let mut t: KeycoreTally<8> = KeycoreTally::new(0);
    let mut received: u32 = 0;
    let mut taken: u32 = 0;
    // (bytes received this loop, whether the admin queue takes the offer)
    let script: [(u16, bool); 6] = [(1, false), (2, true), (0, true), (3, false), (4, false), (1, true)];
    for (bytes, accepted) in script {
        t.add_bytes(bytes);
        received += bytes as u32;
        if let Some(n) = t.pending_report() {
            if accepted {
                taken += n as u32;
                t.pending_taken();
            }
        }
        let pending = t.pending_report().unwrap_or(0) as u32;
        assert_eq!(pending + taken, received);
    }
    assert_eq!(taken, 11);
    assert_eq!(t.pending_report(), None);
}
