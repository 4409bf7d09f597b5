use rp2040_kbd::hid::{copy_report, transform_state, KeyboardReport};
use rp2040_kbd::keyboard::{
    rotate_layer, KeyboardState, LEFT_ROW0, LEFT_ROW2, LEFT_ROW3, LEFT_ROW4, LEFT_ROW_MASK,
};
use rp2040_kbd::keycodes::{
    KeyCode, A, B, BACKSLASH, C, D, E, F, G, KC_DELF, LEFT_SHIFT, N1, N2, S, SLASH,
};
use rp2040_kbd::keymap::{KeyboardReportState, KeymapLayer, LastPressState};
use rp2040_kbd::mapping::{on_press, on_release, KeyNotice, Side};
use rp2040_kbd::matrix::{ColIndex, MatrixIndex, MatrixUpdate, RowIndex};

fn drain(state: &mut KeyboardReportState) -> Vec<KeyboardReport> {
    let mut out = Vec::new();
    while let Some(r) = state.report() {
        out.push(*r);
        state.accept();
    }
    out
}

fn right_key(row: u8, col: u8, pressed: bool) -> MatrixUpdate {
    MatrixUpdate::from_key_update(
        MatrixIndex::from_row_col(RowIndex::from_value(row), ColIndex::from_value(col)),
        pressed,
    )
}

fn keys(k: u8) -> [u8; 6] {
    [k, 0, 0, 0, 0, 0]
}

#[test]
fn right_plain_key_press_and_release() {
    let mut kbd = KeyboardState::new();
    let mut state = KeyboardReportState::new();
    assert!(state.report().is_none());
    assert_eq!(kbd.update_right(right_key(1, 1, true), &mut state), None);
    let pressed = drain(&mut state);
    assert_eq!(pressed.len(), 1);
    assert_eq!(pressed[0].modifier, 0);
    assert_eq!(pressed[0].keycodes, keys(S));
    assert_eq!(kbd.update_right(right_key(1, 1, false), &mut state), None);
    let released = drain(&mut state);
    assert_eq!(released.len(), 1);
    assert_eq!(released[0].keycodes, [0u8; 6]);
}

#[test]
fn repeated_right_press_is_ignored() {
    let mut kbd = KeyboardState::new();
    let mut state = KeyboardReportState::new();
    kbd.update_right(right_key(1, 1, true), &mut state);
    assert_eq!(drain(&mut state).len(), 1);
    kbd.update_right(right_key(1, 1, true), &mut state);
    assert!(drain(&mut state).is_empty());
}

#[test]
fn left_shift_held_while_right_key_pressed() {
    let mut kbd = KeyboardState::new();
    let mut state = KeyboardReportState::new();
    let mut notices = Vec::new();
    let shift_down = LEFT_ROW_MASK & !LEFT_ROW2;
    assert!(kbd.scan_left_column(0, shift_down, 0, &mut state, &mut notices));
    kbd.update_right(right_key(1, 1, true), &mut state);
    let reports = drain(&mut state);
    assert_eq!(reports.len(), 2);
    assert_eq!(reports[0].modifier, LEFT_SHIFT);
    assert_eq!(reports[0].keycodes, [0u8; 6]);
    assert_eq!(reports[1].modifier, LEFT_SHIFT);
    assert_eq!(reports[1].keycodes, keys(S));
    assert!(kbd.scan_left_column(0, LEFT_ROW_MASK, 50_000, &mut state, &mut notices));
    let after = drain(&mut state);
    assert_eq!(after.len(), 1);
    assert_eq!(after[0].modifier, 0);
    assert_eq!(after[0].keycodes, keys(S));
    assert!(notices.is_empty());
}

#[test]
fn left_bounce_within_quarantine_is_ignored() {
    let mut kbd = KeyboardState::new();
    let mut state = KeyboardReportState::new();
    let mut notices = Vec::new();
    let shift_down = LEFT_ROW_MASK & !LEFT_ROW2;
    assert!(kbd.scan_left_column(0, shift_down, 1_000, &mut state, &mut notices));
    assert_eq!(drain(&mut state).len(), 1);
    assert!(!kbd.scan_left_column(0, LEFT_ROW_MASK, 6_000, &mut state, &mut notices));
    assert!(drain(&mut state).is_empty());
    assert!(kbd.scan_left_column(0, LEFT_ROW_MASK, 30_000, &mut state, &mut notices));
    let released = drain(&mut state);
    assert_eq!(released.len(), 1);
    assert_eq!(released[0].modifier, 0);
}

#[test]
fn left_reboot_key_announces_reboot() {
    let mut kbd = KeyboardState::new();
    let mut state = KeyboardReportState::new();
    let mut notices = Vec::new();
    assert!(kbd.scan_left_column(1, LEFT_ROW_MASK & !LEFT_ROW4, 0, &mut state, &mut notices));
    assert_eq!(notices, vec![KeyNotice::Reboot]);
    assert!(drain(&mut state).is_empty());
}

#[test]
fn encoder_turns_through_base_layers() {
    let mut kbd = KeyboardState::new();
    let mut state = KeyboardReportState::new();
    assert_eq!(state.active_layer(), KeymapLayer::DvorakSe);
    let cw = MatrixUpdate::from_rotary_change(true);
    let ccw = MatrixUpdate::from_rotary_change(false);
    assert_eq!(
        kbd.update_right(cw, &mut state),
        Some(KeyNotice::LayerChange(KeymapLayer::DvorakAnsi))
    );
    assert_eq!(
        kbd.update_right(cw, &mut state),
        Some(KeyNotice::LayerChange(KeymapLayer::DvorakSeMac))
    );
    assert_eq!(
        kbd.update_right(cw, &mut state),
        Some(KeyNotice::LayerChange(KeymapLayer::QwertyGaming))
    );
    // Back from the gaming layer lands on the ANSI layer, not the Mac one.
    assert_eq!(
        kbd.update_right(ccw, &mut state),
        Some(KeyNotice::LayerChange(KeymapLayer::DvorakAnsi))
    );
    assert_eq!(
        kbd.update_right(ccw, &mut state),
        Some(KeyNotice::LayerChange(KeymapLayer::DvorakSe))
    );
    assert_eq!(state.active_layer(), KeymapLayer::DvorakSe);
}

#[test]
fn rotate_clockwise_then_back() {
    let mut state = KeyboardReportState::new();
    assert_eq!(
        rotate_layer(true, &mut state),
        Some(KeyNotice::LayerChange(KeymapLayer::DvorakAnsi))
    );
    assert_eq!(
        rotate_layer(false, &mut state),
        Some(KeyNotice::LayerChange(KeymapLayer::DvorakSe))
    );
    assert_eq!(state.active_layer(), KeymapLayer::DvorakSe);
}

#[test]
fn raise_layer_is_temporary() {
    let mut kbd = KeyboardState::new();
    let mut state = KeyboardReportState::new();
    assert_eq!(
        kbd.update_right(right_key(3, 3, true), &mut state),
        Some(KeyNotice::LayerChange(KeymapLayer::DvorakSe))
    );
    assert_eq!(state.active_layer(), KeymapLayer::Raise);
    // The encoder does nothing while a temporary layer is in force.
    assert_eq!(kbd.update_right(MatrixUpdate::from_rotary_change(true), &mut state), None);
    kbd.update_right(right_key(1, 1, true), &mut state);
    let reports = drain(&mut state);
    assert_eq!(reports.len(), 1);
    assert_eq!(reports[0].keycodes, keys(KC_DELF));
    // Released after the layer is gone, the key still releases what it pressed.
    assert_eq!(
        kbd.update_right(right_key(3, 3, false), &mut state),
        Some(KeyNotice::LayerChange(KeymapLayer::DvorakSe))
    );
    assert_eq!(state.active_layer(), KeymapLayer::DvorakSe);
    kbd.update_right(right_key(1, 1, false), &mut state);
    let released = drain(&mut state);
    assert_eq!(released.len(), 1);
    assert_eq!(released[0].keycodes, [0u8; 6]);
}

#[test]
fn swedish_quote_follows_shift() {
    let mut state = KeyboardReportState::new();
    let prev = LastPressState {
        generation: 0,
        layer: KeymapLayer::DvorakSe,
        last_perm_layer: None,
    };
    assert_eq!(on_press(Side::Left, 1, &mut state), None);
    let quote = drain(&mut state);
    assert_eq!(quote.len(), 1);
    assert_eq!(quote[0].keycodes, keys(BACKSLASH));
    assert_eq!(on_release(Side::Left, 1, prev, &mut state), None);
    let released = drain(&mut state);
    assert_eq!(released.len(), 1);
    assert_eq!(released[0].keycodes, [0u8; 6]);

    // With shift held the same key gives a double quote.
    assert_eq!(on_press(Side::Left, 12, &mut state), None);
    assert_eq!(on_press(Side::Left, 1, &mut state), None);
    let shifted = drain(&mut state);
    assert_eq!(shifted.len(), 2);
    assert_eq!(shifted[1].modifier, LEFT_SHIFT);
    assert_eq!(shifted[1].keycodes, keys(N2));
}

#[test]
fn left_reboot_key_press_returns_notice() {
    let mut state = KeyboardReportState::new();
    assert_eq!(on_press(Side::Left, 25, &mut state), Some(KeyNotice::Reboot));
    assert!(drain(&mut state).is_empty());
}

#[test]
fn push_key_to_arr_fills_then_drops_oldest() {
    let mut arr = [0u8; 6];
    for k in [A, B, C, D, E, F] {
        KeyboardReportState::push_key_to_arr(KeyCode(k), &mut arr);
    }
    assert_eq!(arr, [A, B, C, D, E, F]);
    KeyboardReportState::push_key_to_arr(KeyCode(C), &mut arr);
    assert_eq!(arr, [A, B, C, D, E, F]);
    KeyboardReportState::push_key_to_arr(KeyCode(G), &mut arr);
    assert_eq!(arr, [B, C, D, E, F, G]);
}

#[test]
fn pop_key_from_arr_moves_later_keys_down() {
    let mut arr = [A, B, C, 0, 0, 0];
    assert!(KeyboardReportState::pop_key_from_arr(KeyCode(B), &mut arr));
    assert_eq!(arr, [A, C, 0, 0, 0, 0]);
    assert!(!KeyboardReportState::pop_key_from_arr(KeyCode(G), &mut arr));
    assert_eq!(arr, [A, C, 0, 0, 0, 0]);
    assert!(KeyboardReportState::pop_key_from_arr(KeyCode(A), &mut arr));
    assert_eq!(arr, [C, 0, 0, 0, 0, 0]);
}

#[test]
fn empty_report_and_copy() {
    let empty = transform_state();
    assert_eq!(empty.modifier, 0);
    assert_eq!(empty.reserved, 0);
    assert_eq!(empty.leds, 0);
    assert_eq!(empty.keycodes, [0u8; 6]);
    let r = KeyboardReport {
        modifier: 3,
        reserved: 0,
        leds: 1,
        keycodes: [A, B, 0, 0, 0, 0],
    };
    let c = copy_report(&r);
    assert_eq!(c.modifier, 3);
    assert_eq!(c.leds, 1);
    assert_eq!(c.keycodes, [A, B, 0, 0, 0, 0]);
}

#[test]
fn temp_shift_is_restored_on_release() {
    let mut kbd = KeyboardState::new();
    let mut state = KeyboardReportState::new();
    let mut notices = Vec::new();
    // Lower is held on the left thumb, row 3 column 4.
    assert!(kbd.scan_left_column(4, LEFT_ROW_MASK & !LEFT_ROW3, 0, &mut state, &mut notices));
    assert_eq!(notices, vec![KeyNotice::LayerChange(KeymapLayer::DvorakSe)]);
    assert_eq!(state.active_layer(), KeymapLayer::Lower);
    // On Lower, row 0 column 1 sends a shifted 1.
    assert!(kbd.scan_left_column(1, LEFT_ROW_MASK & !LEFT_ROW0, 0, &mut state, &mut notices));
    let pressed = drain(&mut state);
    assert_eq!(pressed.len(), 2);
    assert_eq!(pressed[0].modifier, LEFT_SHIFT);
    assert_eq!(pressed[0].keycodes, [0u8; 6]);
    assert_eq!(pressed[1].modifier, LEFT_SHIFT);
    assert_eq!(pressed[1].keycodes, keys(N1));
    assert!(kbd.scan_left_column(1, LEFT_ROW_MASK, 50_000, &mut state, &mut notices));
    let released = drain(&mut state);
    assert_eq!(released.len(), 2);
    assert_eq!(released[0].modifier, 0);
    assert_eq!(released[0].keycodes, keys(N1));
    assert_eq!(released[1].modifier, 0);
    assert_eq!(released[1].keycodes, [0u8; 6]);
    notices.clear();
    assert!(kbd.scan_left_column(4, LEFT_ROW_MASK, 50_000, &mut state, &mut notices));
    assert_eq!(notices, vec![KeyNotice::LayerChange(KeymapLayer::DvorakSe)]);
    assert_eq!(state.active_layer(), KeymapLayer::DvorakSe);
}

#[test]
fn stale_temp_release_leaves_later_key_alone() {
    let mut kbd = KeyboardState::new();
    let mut state = KeyboardReportState::new();
    let mut notices = Vec::new();
    kbd.scan_left_column(4, LEFT_ROW_MASK & !LEFT_ROW3, 0, &mut state, &mut notices);
    kbd.scan_left_column(1, LEFT_ROW_MASK & !LEFT_ROW0, 0, &mut state, &mut notices);
    assert_eq!(drain(&mut state).len(), 2);
    // Another key goes down first: the report goes back to what the user
    // holds, then gets the new key (a slash on Lower).
    kbd.update_right(right_key(1, 1, true), &mut state);
    let next = drain(&mut state);
    assert_eq!(next.len(), 3);
    assert_eq!(next[0].modifier, 0);
    assert_eq!(next[0].keycodes, keys(N1));
    assert_eq!(next[1].keycodes, [0u8; 6]);
    assert_eq!(next[2].modifier, 0);
    assert_eq!(next[2].keycodes, keys(SLASH));
    // The shifted key's release restores nothing: it is no longer the last press.
    assert!(kbd.scan_left_column(1, LEFT_ROW_MASK, 50_000, &mut state, &mut notices));
    assert!(drain(&mut state).is_empty());
}
