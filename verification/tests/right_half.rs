use rp2040_kbd::right_half::{
    encoder_update, RightMatrix, RotaryEncoder, RotaryPosition, RIGHT_ROW1, RIGHT_ROW4,
    RIGHT_ROW_MASK,
};
use rp2040_kbd::spsc::{available, next_index, pop_position, push_position};

fn bytes(out: &[rp2040_kbd::matrix::MatrixUpdate]) -> Vec<u8> {
    out.iter().map(|u| u.byte()).collect()
}

#[test]
fn right_key_press_and_release_are_sent() {
    let mut m = RightMatrix::new();
    let mut out = Vec::new();
    assert!(!m.scan_column(1, RIGHT_ROW_MASK & !RIGHT_ROW1, 0, &mut out));
    assert_eq!(bytes(&out), vec![0x27]);
    // Nothing changed: nothing sent.
    assert!(!m.scan_column(1, RIGHT_ROW_MASK & !RIGHT_ROW1, 100, &mut out));
    assert_eq!(out.len(), 1);
    // A bounce right after is held back.
    assert!(!m.scan_column(1, RIGHT_ROW_MASK, 5_000, &mut out));
    assert_eq!(out.len(), 1);
    assert!(!m.scan_column(1, RIGHT_ROW_MASK, 30_000, &mut out));
    assert_eq!(bytes(&out), vec![0x27, 0x07]);
}

#[test]
fn right_reboot_key_stops_the_scan() {
    let mut m = RightMatrix::new();
    let mut out = Vec::new();
    assert!(m.scan_column(2, RIGHT_ROW_MASK & !RIGHT_ROW4, 0, &mut out));
    assert_eq!(bytes(&out), vec![0x3a]);
}

#[test]
fn rotary_positions() {
    assert_eq!(RotaryPosition::from_state(false, false), RotaryPosition::North);
    assert_eq!(RotaryPosition::from_state(true, false), RotaryPosition::East);
    assert_eq!(RotaryPosition::from_state(true, true), RotaryPosition::South);
    assert_eq!(RotaryPosition::from_state(false, true), RotaryPosition::West);
}

#[test]
fn encoder_steps_after_three_quarter_turns() {
    let mut e = RotaryEncoder::new();
    assert_eq!(e.scan_debounced(false, false), None);
    assert_eq!(e.scan_debounced(true, false), None);
    assert_eq!(e.scan_debounced(true, true), None);
    assert_eq!(e.scan_debounced(false, true), Some(true));
    assert_eq!(e.scan_debounced(false, false), None);
    assert_eq!(e.scan_debounced(true, false), Some(true));
}

#[test]
fn encoder_counter_clockwise_and_reversal() {
    let mut e = RotaryEncoder::new();
    assert_eq!(e.scan_debounced(false, false), None);
    assert_eq!(e.scan_debounced(false, true), None);
    assert_eq!(e.scan_debounced(true, true), None);
    assert_eq!(e.scan_debounced(true, false), Some(false));
    // Turning back resets the run.
    assert_eq!(e.scan_debounced(true, true), None);
    assert_eq!(e.scan_debounced(true, true), None);
    assert_eq!(e.scan_debounced(false, true), None);
}

#[test]
fn encoder_update_bytes() {
    assert_eq!(encoder_update(true).byte(), 0xc0);
    assert_eq!(encoder_update(false).byte(), 0x40);
}

#[test]
fn spsc_positions() {
    assert_eq!(available(0, 0, 8), 0);
    assert_eq!(available(2, 5, 8), 3);
    assert_eq!(available(6, 1, 8), 3);
    assert_eq!(next_index(7, 8), 0);
    assert_eq!(next_index(3, 8), 4);
    assert_eq!(push_position(0, 7, 8), None);
    assert_eq!(push_position(3, 5, 8), Some(6));
    assert_eq!(pop_position(4, 4, 8), None);
    assert_eq!(pop_position(7, 2, 8), Some(0));
}

#[test]
fn spsc_ring_holds_one_less_than_its_slots() {
    const N: usize = 8;
    let mut slots = [0u32; N];
    let (mut head, mut tail) = (0usize, 0usize);
    let mut pushed = 0u32;
    while let Some(next) = push_position(head, tail, N) {
        slots[tail] = pushed;
        tail = next;
        pushed += 1;
    }
    assert_eq!(pushed, 7);
    assert_eq!(available(head, tail, N), 7);
    let mut popped = Vec::new();
    while let Some(next) = pop_position(head, tail, N) {
        popped.push(slots[head]);
        head = next;
    }
    assert_eq!(popped, (0..7).collect::<Vec<u32>>());
    assert_eq!(available(head, tail, N), 0);
}
