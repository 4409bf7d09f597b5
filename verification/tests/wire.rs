use rp2040_kbd::debugger::{DebugBuffer, DEBUG_BUFFER_LEN};
use rp2040_kbd::hid::SubmitGate;
use rp2040_kbd::split_serial::SplitSerialMessage;
use rp2040_kbd::usb_serial::{SerialWrite, WriteOutcome};

#[test]
fn split_serial_bytes() {
    assert_eq!(SplitSerialMessage::Ping.byte(), 1);
    assert_eq!(SplitSerialMessage::Pong.byte(), 2);
    assert_eq!(SplitSerialMessage::from_byte(1), Some(SplitSerialMessage::Ping));
    assert_eq!(SplitSerialMessage::from_byte(2), Some(SplitSerialMessage::Pong));
    assert_eq!(SplitSerialMessage::from_byte(0), None);
    assert_eq!(SplitSerialMessage::from_byte(3), None);
}

#[test]
fn serial_write_goes_in_chunks_of_sixteen() {
    let mut w = SerialWrite::new(40);
    assert_eq!(w.next_window(), Some((0, 16)));
    assert!(w.advance(WriteOutcome::Wrote(10)));
    assert_eq!(w.next_window(), Some((10, 16)));
    assert!(w.advance(WriteOutcome::Wrote(6)));
    assert_eq!(w.next_window(), Some((16, 32)));
    assert!(w.advance(WriteOutcome::WouldBlock));
    assert_eq!(w.next_window(), Some((16, 32)));
    assert!(w.advance(WriteOutcome::Wrote(16)));
    assert_eq!(w.next_window(), Some((32, 40)));
    assert!(w.advance(WriteOutcome::Wrote(8)));
    assert_eq!(w.next_window(), None);
}

#[test]
fn serial_write_stops_on_error() {
    let mut w = SerialWrite::new(5);
    assert_eq!(w.next_window(), Some((0, 5)));
    assert!(!w.advance(WriteOutcome::Failed));
    assert_eq!(SerialWrite::new(0).next_window(), None);
}

#[test]
fn one_report_per_poll() {
    let mut g = SubmitGate::new();
    assert!(g.try_submit_report());
    assert!(!g.try_submit_report());
    g.poll();
    assert!(g.try_submit_report());
}

#[test]
fn debug_buffer_collects_and_hands_out() {
    let mut d = DebugBuffer::new();
    d.write_str("ab");
    assert_eq!(d.take_content(), b"ab".to_vec());
    assert!(d.take_content().is_empty());
}

#[test]
fn debug_buffer_second_write_lands_at_twice_the_offset() {
    let mut d = DebugBuffer::new();
    d.write_str("ab");
    d.write_str("cd");
    assert_eq!(d.take_content(), vec![b'a', b'b', 0, 0]);
    let long = "x".repeat(DEBUG_BUFFER_LEN + 1);
    d.write_str(&long);
    assert!(d.take_content().is_empty());
}
