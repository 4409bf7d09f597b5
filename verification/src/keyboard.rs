//! The per-key state of the left half (which holds the keymap) and how key
//! events from both halves and the encoder reach the report state.
use vstd::prelude::*;
use crate::debounce::{DebounceView, PinDebouncer, debounce_submit};
use crate::keymap::{KeyboardReportState, KeymapLayer, LastPressState, ReportStateView};
use crate::mapping::{
    KeyNotice, PressAction, ReleaseAction, Side, on_press, on_release, press_action, press_effect, release_action,
    release_effect,
};
use crate::keymap::{key_position, packed, lemma_push_then_pop_key, lemma_restore_shows_user_state};
use crate::matrix::{MatrixChange, MatrixUpdate, decodes_to};

verus! {

/// Keys per half, counting the empty slot of row 4, column 0.
pub const KEYS_PER_SIDE: usize = 30;

/// GPIO bits of the left half's row pins; a key reads as pressed when its
/// row pin is low while its column is driven low.
pub const LEFT_ROW0: u32 = 0x2000_0000;
pub const LEFT_ROW1: u32 = 0x0800_0000;
pub const LEFT_ROW2: u32 = 0x0000_0040;
pub const LEFT_ROW3: u32 = 0x0000_0080;
pub const LEFT_ROW4: u32 = 0x0000_0100;
/// All left row pins.
pub const LEFT_ROW_MASK: u32 = 0x2800_01c0;

pub open spec fn left_row_bit(row: int) -> u32 {
    if row == 0 {
        LEFT_ROW0
    } else if row == 1 {
        LEFT_ROW1
    } else if row == 2 {
        LEFT_ROW2
    } else if row == 3 {
        LEFT_ROW3
    } else {
        LEFT_ROW4
    }
}

/// The GPIO pin each left row is wired to, top row first.
pub open spec fn left_row_pin(row: int) -> u32 {
    seq![29u32, 27u32, 6u32, 7u32, 8u32][row]
}

/// Each left row is read on its own pin: row `r` reads the bit of the
/// GPIO pin it is wired to, that bit is one of the row mask, and with only
/// row `r`'s pin low among the row pins, row `r` and no other reads as
/// pressed.
pub proof fn lemma_left_rows_read_their_pins(r: int, s: int)
    requires
        0 <= r < 5,
        0 <= s < 5,
    ensures
        left_row_bit(r) == 1u32 << left_row_pin(r),
        LEFT_ROW_MASK & left_row_bit(r) == left_row_bit(r),
        ((LEFT_ROW_MASK & !left_row_bit(r)) & left_row_bit(s) == 0) <==> r == s,
{
    assert(
        LEFT_ROW0 == 1u32 << 29u32 &&
        LEFT_ROW_MASK & LEFT_ROW0 == LEFT_ROW0 &&
        (LEFT_ROW_MASK & !LEFT_ROW0) & LEFT_ROW0 == 0 &&
        (LEFT_ROW_MASK & !LEFT_ROW0) & LEFT_ROW1 != 0 &&
        (LEFT_ROW_MASK & !LEFT_ROW0) & LEFT_ROW2 != 0 &&
        (LEFT_ROW_MASK & !LEFT_ROW0) & LEFT_ROW3 != 0 &&
        (LEFT_ROW_MASK & !LEFT_ROW0) & LEFT_ROW4 != 0 &&
        LEFT_ROW1 == 1u32 << 27u32 &&
        LEFT_ROW_MASK & LEFT_ROW1 == LEFT_ROW1 &&
        (LEFT_ROW_MASK & !LEFT_ROW1) & LEFT_ROW0 != 0 &&
        (LEFT_ROW_MASK & !LEFT_ROW1) & LEFT_ROW1 == 0 &&
        (LEFT_ROW_MASK & !LEFT_ROW1) & LEFT_ROW2 != 0 &&
        (LEFT_ROW_MASK & !LEFT_ROW1) & LEFT_ROW3 != 0 &&
        (LEFT_ROW_MASK & !LEFT_ROW1) & LEFT_ROW4 != 0 &&
        LEFT_ROW2 == 1u32 << 6u32 &&
        LEFT_ROW_MASK & LEFT_ROW2 == LEFT_ROW2 &&
        (LEFT_ROW_MASK & !LEFT_ROW2) & LEFT_ROW0 != 0 &&
        (LEFT_ROW_MASK & !LEFT_ROW2) & LEFT_ROW1 != 0 &&
        (LEFT_ROW_MASK & !LEFT_ROW2) & LEFT_ROW2 == 0 &&
        (LEFT_ROW_MASK & !LEFT_ROW2) & LEFT_ROW3 != 0 &&
        (LEFT_ROW_MASK & !LEFT_ROW2) & LEFT_ROW4 != 0 &&
        LEFT_ROW3 == 1u32 << 7u32 &&
        LEFT_ROW_MASK & LEFT_ROW3 == LEFT_ROW3 &&
        (LEFT_ROW_MASK & !LEFT_ROW3) & LEFT_ROW0 != 0 &&
        (LEFT_ROW_MASK & !LEFT_ROW3) & LEFT_ROW1 != 0 &&
        (LEFT_ROW_MASK & !LEFT_ROW3) & LEFT_ROW2 != 0 &&
        (LEFT_ROW_MASK & !LEFT_ROW3) & LEFT_ROW3 == 0 &&
        (LEFT_ROW_MASK & !LEFT_ROW3) & LEFT_ROW4 != 0 &&
        LEFT_ROW4 == 1u32 << 8u32 &&
        LEFT_ROW_MASK & LEFT_ROW4 == LEFT_ROW4 &&
        (LEFT_ROW_MASK & !LEFT_ROW4) & LEFT_ROW0 != 0 &&
        (LEFT_ROW_MASK & !LEFT_ROW4) & LEFT_ROW1 != 0 &&
        (LEFT_ROW_MASK & !LEFT_ROW4) & LEFT_ROW2 != 0 &&
        (LEFT_ROW_MASK & !LEFT_ROW4) & LEFT_ROW3 != 0 &&
        (LEFT_ROW_MASK & !LEFT_ROW4) & LEFT_ROW4 == 0
    ) by (bit_vector);
    assert(r == 0 || r == 1 || r == 2 || r == 3 || r == 4);
    assert(s == 0 || s == 1 || s == 2 || s == 3 || s == 4);
}

fn left_row_bit_of(row: usize) -> (r: u32)
    ensures
        r == left_row_bit(row as int),
{
    if row == 0 {
        LEFT_ROW0
    } else if row == 1 {
        LEFT_ROW1
    } else if row == 2 {
        LEFT_ROW2
    } else if row == 3 {
        LEFT_ROW3
    } else {
        LEFT_ROW4
    }
}

/// Rows wired to a column: column 0 has no key on row 4.
pub open spec fn rows_in_column(col: int) -> int {
    if col == 0 {
        4
    } else {
        5
    }
}

/// Every left key slot is read by the scan of its column except slot 24
/// (row 4, column 0), which has no key: column `c` reads row `r` exactly
/// when the slot `r * 6 + c` holds a key.
pub proof fn lemma_every_left_key_is_scanned(idx: int)
    requires
        0 <= idx < 30,
    ensures
        (idx / 6 < rows_in_column(idx % 6)) <==> idx != 24,
{
}

/// A key's state as values: what held when it went down, if it is down,
/// and its debouncer.
pub struct PinView {
    pub last_state: Option<LastPressState>,
    pub debounce: DebounceView,
}

/// A key going down (`last` is `None`) or coming up: the key's new press
/// record, the report state after, and what it announces. A press first
/// brings the report back to what the user holds, and counts one more
/// press after recording it.
pub open spec fn key_event(last: Option<LastPressState>, side: Side, index: u8, m: ReportStateView) -> (
    Option<LastPressState>,
    ReportStateView,
    Option<KeyNotice>,
) {
    match last {
        Some(prev) => {
            let (r, n) = release_effect(side, index, prev, m);
            (None, r, n)
        },
        None => {
            let (r, n) = press_effect(side, index, m.restore_to_user_state());
            (Some(r.last_press()), r.increment_generation(), n)
        },
    }
}

/// A left key read as `pressed` at `now`: the key after, the report state
/// after, what it announces, and whether its state changed.
pub open spec fn left_key_step(pin: PinView, index: u8, pressed: bool, now: u64, m: ReportStateView) -> (
    PinView,
    ReportStateView,
    Option<KeyNotice>,
    bool,
) {
    if (pin.last_state is Some) != pressed {
        let (d, accepted) = debounce_submit(pin.debounce, now, pressed);
        if accepted {
            let (last, r, n) = key_event(pin.last_state, Side::Left, index, m);
            (PinView { last_state: last, debounce: d }, r, n, true)
        } else {
            (PinView { debounce: d, ..pin }, m, None, false)
        }
    } else {
        (pin, m, None, false)
    }
}

pub open spec fn notice_seq(n: Option<KeyNotice>) -> Seq<KeyNotice> {
    match n {
        Some(x) => seq![x],
        None => Seq::empty(),
    }
}

/// Scanning rows `row..` of left column `col` with the row pins read as
/// `bank`: the keys after, the report state after, the notices in order,
/// and whether any key changed.
pub open spec fn scan_column_from(
    keys: Seq<PinView>,
    m: ReportStateView,
    col: int,
    row: int,
    bank: u32,
    now: u64,
) -> (Seq<PinView>, ReportStateView, Seq<KeyNotice>, bool)
    decreases 5 - row,
{
    if row >= rows_in_column(col) || row < 0 {
        (keys, m, Seq::empty(), false)
    } else {
        let idx = row * 6 + col;
        let pressed = bank & left_row_bit(row) == 0;
        let (p, r, n, c) = left_key_step(keys[idx], idx as u8, pressed, now, m);
        let (k2, r2, ns, c2) = scan_column_from(keys.update(idx, p), r, col, row + 1, bank, now);
        (k2, r2, notice_seq(n) + ns, c || c2)
    }
}

/// The base layer the encoder turns to from the layer in force, if that is
/// a base layer.
pub open spec fn rotated_layer(active: KeymapLayer, clockwise: bool) -> Option<KeymapLayer> {
    match active {
        KeymapLayer::DvorakSe => Some(
            if clockwise {
                KeymapLayer::DvorakAnsi
            } else {
                KeymapLayer::QwertyGaming
            },
        ),
        KeymapLayer::DvorakAnsi => Some(
            if clockwise {
                KeymapLayer::DvorakSeMac
            } else {
                KeymapLayer::DvorakSe
            },
        ),
        KeymapLayer::DvorakSeMac => Some(
            if clockwise {
                KeymapLayer::QwertyGaming
            } else {
                KeymapLayer::DvorakAnsi
            },
        ),
        KeymapLayer::QwertyGaming => Some(
            if clockwise {
                KeymapLayer::DvorakSe
            } else {
                KeymapLayer::DvorakAnsi
            },
        ),
        _ => None,
    }
}

/// An encoder step: on a base layer it switches the permanent layer and
/// announces it; on a temporary layer it does nothing.
pub open spec fn rotate_effect(clockwise: bool, m: ReportStateView) -> (ReportStateView, Option<KeyNotice>) {
    match rotated_layer(m.active_layer, clockwise) {
        Some(t) => {
            let n = m.set_perm_layer(t);
            (n, Some(KeyNotice::LayerChange(n.active_layer)))
        },
        None => (m, None),
    }
}

/// Handles an encoder step.
pub fn rotate_layer(clockwise: bool, keyboard_report_state: &mut KeyboardReportState) -> (r: Option<
    KeyNotice,
>)
    requires
        old(keyboard_report_state).wf(),
    ensures
        final(keyboard_report_state).wf(),
        (final(keyboard_report_state)@, r) == rotate_effect(clockwise, old(keyboard_report_state)@),
{
    let target = match keyboard_report_state.active_layer() {
        KeymapLayer::DvorakSe => if clockwise {
            KeymapLayer::DvorakAnsi
        } else {
            KeymapLayer::QwertyGaming
        },
        KeymapLayer::DvorakAnsi => if clockwise {
            KeymapLayer::DvorakSeMac
        } else {
            KeymapLayer::DvorakSe
        },
        KeymapLayer::DvorakSeMac => if clockwise {
            KeymapLayer::QwertyGaming
        } else {
            KeymapLayer::DvorakAnsi
        },
        KeymapLayer::QwertyGaming => if clockwise {
            KeymapLayer::DvorakSe
        } else {
            KeymapLayer::DvorakAnsi
        },
        _ => {
            return None;
        },
    };
    keyboard_report_state.set_perm_layer(target);
    Some(KeyNotice::LayerChange(keyboard_report_state.active_layer()))
}

#[derive(Copy, Clone, Debug)]
pub struct PinStructState {
    last_state: Option<LastPressState>,
    jitter: PinDebouncer,
}

impl View for PinStructState {
    type V = PinView;

    open spec fn view(&self) -> PinView {
        self.pin_view()
    }
}

impl PinStructState {
    pub closed spec fn pin_view(&self) -> PinView {
        PinView { last_state: self.last_state, debounce: self.jitter@ }
    }

    pub fn new() -> (r: Self)
        ensures
            r@ == (PinView {
                last_state: None,
                debounce: DebounceView { last_touch: None, quarantined: None },
            }),
    {
        PinStructState { last_state: None, jitter: PinDebouncer::new() }
    }

    fn is_pressed(&self) -> (r: bool)
        ensures
            r == (self@.last_state is Some),
    {
        self.last_state.is_some()
    }

    /// Handles the key going down or coming up.
    fn toggle(&mut self, side: Side, index: u8, keyboard_report_state: &mut KeyboardReportState) -> (r: Option<
        KeyNotice,
    >)
        requires
            old(keyboard_report_state).wf(),
        ensures
            final(keyboard_report_state).wf(),
            final(self)@.debounce == old(self)@.debounce,
            (final(self)@.last_state, final(keyboard_report_state)@, r) == key_event(
                old(self)@.last_state,
                side,
                index,
                old(keyboard_report_state)@,
            ),
    {
        match self.last_state.take() {
            Some(prev) => on_release(side, index, prev, keyboard_report_state),
            None => {
                keyboard_report_state.restore_to_user_state();
                let n = on_press(side, index, keyboard_report_state);
                self.last_state = Some(keyboard_report_state.last_press());
                keyboard_report_state.increment_generation();
                n
            },
        }
    }

    /// Submits the key's state read at `now` to its debouncer and handles
    /// the change if it is accepted; true when it was.
    pub fn check_update_state(
        &mut self,
        index: u8,
        pressed: bool,
        keyboard_report_state: &mut KeyboardReportState,
        now: u64,
    ) -> (r: (bool, Option<KeyNotice>))
        requires
            old(keyboard_report_state).wf(),
        ensures
            final(keyboard_report_state).wf(),
            ({
                let (d, accepted) = debounce_submit(old(self)@.debounce, now, pressed);
                &&& r.0 == accepted
                &&& final(self)@.debounce == d
                &&& if accepted {
                    (final(self)@.last_state, final(keyboard_report_state)@, r.1) == key_event(
                        old(self)@.last_state,
                        Side::Left,
                        index,
                        old(keyboard_report_state)@,
                    )
                } else {
                    &&& final(self)@.last_state == old(self)@.last_state
                    &&& final(keyboard_report_state)@ == old(keyboard_report_state)@
                    &&& r.1 is None
                }
            }),
    {
        if self.jitter.try_submit(now, pressed) {
            let n = self.toggle(Side::Left, index, keyboard_report_state);
            (true, n)
        } else {
            (false, None)
        }
    }
}

/// The per-key state of both halves.
pub struct KeyboardState {
    left: Vec<PinStructState>,
    right: Vec<PinStructState>,
}

pub struct KeyboardView {
    pub left: Seq<PinView>,
    pub right: Seq<PinView>,
}

impl View for KeyboardState {
    type V = KeyboardView;

    open spec fn view(&self) -> KeyboardView {
        self.keys_view()
    }
}

/// The keys of a half as values.
pub open spec fn pin_views(pins: Seq<PinStructState>) -> Seq<PinView> {
    pins.map_values(|p: PinStructState| p@)
}

/// The right half's key update: the key's new state, the report state
/// after, and what it announces. Slot 24 and indexes past the matrix name
/// no key.
pub open spec fn right_key_update(keys: Seq<PinView>, index: u8, pressed: bool, m: ReportStateView) -> (
    Seq<PinView>,
    ReportStateView,
    Option<KeyNotice>,
) {
    if index <= 29 && index != 24 && (keys[index as int].last_state is Some) != pressed {
        let (last, r, n) = key_event(keys[index as int].last_state, Side::Right, index, m);
        (keys.update(index as int, PinView { last_state: last, ..keys[index as int] }), r, n)
    } else {
        (keys, m, None)
    }
}

/// What an update received from the right half does.
pub open spec fn right_update_effect(keys: Seq<PinView>, change: MatrixChange, m: ReportStateView) -> (
    Seq<PinView>,
    ReportStateView,
    Option<KeyNotice>,
) {
    match change {
        MatrixChange::EncoderUpdate(clockwise) => {
            let (r, n) = rotate_effect(clockwise, m);
            (keys, r, n)
        },
        MatrixChange::KeyUpdate(i, pressed) => right_key_update(keys, i.val(), pressed, m),
    }
}

impl KeyboardState {
    pub closed spec fn keys_view(&self) -> KeyboardView {
        KeyboardView { left: pin_views(self.left@), right: pin_views(self.right@) }
    }

    pub closed spec fn wf(&self) -> bool {
        self.left@.len() == KEYS_PER_SIDE && self.right@.len() == KEYS_PER_SIDE
    }

    /// A well-formed keyboard state holds all 30 keys of each half.
    pub proof fn lemma_wf_holds_all_keys(&self)
        requires
            self.wf(),
        ensures
            self@.left.len() == KEYS_PER_SIDE,
            self@.right.len() == KEYS_PER_SIDE,
    {
    }

    /// No key held on either half.
    pub fn new() -> (r: Self)
        ensures
            r.wf(),
            r@.left.len() == KEYS_PER_SIDE,
            r@.right.len() == KEYS_PER_SIDE,
            forall|i: int|
                0 <= i < KEYS_PER_SIDE ==> #[trigger] r@.left[i] == (PinView {
                    last_state: None,
                    debounce: DebounceView { last_touch: None, quarantined: None },
                }) && r@.right[i] == (PinView {
                    last_state: None,
                    debounce: DebounceView { last_touch: None, quarantined: None },
                }),
    {
        let mut left: Vec<PinStructState> = Vec::new();
        let mut right: Vec<PinStructState> = Vec::new();
        let mut i: usize = 0;
        while i < KEYS_PER_SIDE
            invariant
                i <= KEYS_PER_SIDE,
                left@.len() == i,
                right@.len() == i,
                forall|j: int|
                    0 <= j < i ==> #[trigger] left@[j]@ == (PinView {
                        last_state: None,
                        debounce: DebounceView { last_touch: None, quarantined: None },
                    }) && right@[j]@ == (PinView {
                        last_state: None,
                        debounce: DebounceView { last_touch: None, quarantined: None },
                    }),
            decreases KEYS_PER_SIDE - i,
        {
            left.push(PinStructState::new());
            right.push(PinStructState::new());
            i = i + 1;
        }
        KeyboardState { left, right }
    }

    /// Handles an update received from the right half: a key changing
    /// state or an encoder step.
    pub fn update_right(&mut self, update: MatrixUpdate, keyboard_report_state: &mut KeyboardReportState) -> (r:
        Option<KeyNotice>)
        requires
            old(self).wf(),
            old(keyboard_report_state).wf(),
        ensures
            final(self).wf(),
            final(keyboard_report_state).wf(),
            final(self)@.left.len() == KEYS_PER_SIDE,
            final(self)@.right.len() == KEYS_PER_SIDE,
            final(self)@.left == old(self)@.left,
            forall|c: MatrixChange|
                decodes_to(update.val(), c) ==> (final(self)@.right, final(keyboard_report_state)@, r)
                    == right_update_effect(old(self)@.right, c, old(keyboard_report_state)@),
    {
        let change = update.interpret_byte();
        proof {
            lemma_decoding_unique(update.val(), change);
        }
        match change {
            MatrixChange::EncoderUpdate(enc) => rotate_layer(enc, keyboard_report_state),
            MatrixChange::KeyUpdate(ind, pressed) => {
                let index = ind.byte();
                if index <= 29 && index != 24 {
                    let i = index as usize;
                    let mut pin = self.right[i];
                    if pressed != pin.is_pressed() {
                        let n = pin.toggle(Side::Right, index, keyboard_report_state);
                        self.right.set(i, pin);
                        proof {
                            assert(pin_views(self.right@) =~= pin_views(old(self).right@).update(
                                i as int,
                                pin@,
                            ));
                        }
                        n
                    } else {
                        None
                    }
                } else {
                    None
                }
            },
        }
    }

    /// Scans one left column whose row pins read as `bank` at `now`; true
    /// when a key changed state. What the keys announce is appended to
    /// `notices`.
    pub fn scan_left_column(
        &mut self,
        col: usize,
        bank: u32,
        now: u64,
        keyboard_report_state: &mut KeyboardReportState,
        notices: &mut Vec<KeyNotice>,
    ) -> (r: bool)
        requires
            old(self).wf(),
            old(keyboard_report_state).wf(),
            col < 6,
        ensures
            final(self).wf(),
            final(keyboard_report_state).wf(),
            final(self)@.left.len() == KEYS_PER_SIDE,
            final(self)@.right.len() == KEYS_PER_SIDE,
            final(self)@.right == old(self)@.right,
            ({
                let (keys, m, ns, changed) = scan_column_from(
                    old(self)@.left,
                    old(keyboard_report_state)@,
                    col as int,
                    0,
                    bank,
                    now,
                );
                &&& final(self)@.left == keys
                &&& final(keyboard_report_state)@ == m
                &&& final(notices)@ == old(notices)@ + ns
                &&& r == changed
            }),
    {
        let rows: usize = if col == 0 {
            4
        } else {
            5
        };
        let ghost target = scan_column_from(
            old(self)@.left,
            old(keyboard_report_state)@,
            col as int,
            0,
            bank,
            now,
        );
        let ghost mut acc: Seq<KeyNotice> = Seq::empty();
        let mut any_change = false;
        let mut row: usize = 0;
        assert(notices@ =~= old(notices)@ + acc);
        while row < rows
            invariant
                row <= rows,
                rows == rows_in_column(col as int),
                col < 6,
                self.wf(),
                keyboard_report_state.wf(),
                self@.right == old(self)@.right,
                notices@ == old(notices)@ + acc,
                target == ({
                    let rest = scan_column_from(
                        self@.left,
                        keyboard_report_state@,
                        col as int,
                        row as int,
                        bank,
                        now,
                    );
                    (rest.0, rest.1, acc + rest.2, any_change || rest.3)
                }),
            decreases rows - row,
        {
            let idx = row * 6 + col;
            let pressed = bank & left_row_bit_of(row) == 0;
            let ghost before_keys = self@.left;
            let ghost before_m = keyboard_report_state@;
            let changed = self.step_left_key(idx, pressed, now, keyboard_report_state, notices);
            if changed {
                any_change = true;
            }
            proof {
                let step = left_key_step(before_keys[idx as int], idx as u8, pressed, now, before_m);
                let rest = scan_column_from(self@.left, keyboard_report_state@, col as int, row + 1, bank, now);
                assert((acc + notice_seq(step.2)) + rest.2 =~= acc + (notice_seq(step.2) + rest.2));
                assert(notices@ =~= old(notices)@ + (acc + notice_seq(step.2)));
                acc = acc + notice_seq(step.2);
            }
            row = row + 1;
        }
        assert(target.2 =~= acc);
        any_change
    }

    /// Handles left key `idx` read as `pressed` at `now`.
    fn step_left_key(
        &mut self,
        idx: usize,
        pressed: bool,
        now: u64,
        keyboard_report_state: &mut KeyboardReportState,
        notices: &mut Vec<KeyNotice>,
    ) -> (r: bool)
        requires
            old(self).wf(),
            old(keyboard_report_state).wf(),
            idx < KEYS_PER_SIDE,
        ensures
            final(self).wf(),
            final(keyboard_report_state).wf(),
            final(self)@.left.len() == KEYS_PER_SIDE,
            final(self)@.right.len() == KEYS_PER_SIDE,
            final(self)@.right == old(self)@.right,
            ({
                let (p, m, n, c) = left_key_step(
                    old(self)@.left[idx as int],
                    idx as u8,
                    pressed,
                    now,
                    old(keyboard_report_state)@,
                );
                &&& final(self)@.left == old(self)@.left.update(idx as int, p)
                &&& final(keyboard_report_state)@ == m
                &&& final(notices)@ == old(notices)@ + notice_seq(n)
                &&& r == c
            }),
    {
        let mut pin = self.left[idx];
        let mut changed = false;
        if pin.is_pressed() != pressed {
            let (accepted, n) = pin.check_update_state(idx as u8, pressed, keyboard_report_state, now);
            changed = accepted;
            if let Some(x) = n {
                notices.push(x);
            }
            proof {
                assert(notices@ =~= old(notices)@ + notice_seq(n));
            }
        } else {
            proof {
                assert(notices@ =~= old(notices)@ + notice_seq(None));
            }
        }
        self.left.set(idx, pin);
        proof {
            assert(pin_views(self.left@) =~= pin_views(old(self).left@).update(idx as int, pin@));
        }
        changed
    }
}


/// The base layers in the order the encoder steps through them clockwise.
pub open spec fn base_cycle() -> Seq<KeymapLayer> {
    seq![KeymapLayer::DvorakSe, KeymapLayer::DvorakAnsi, KeymapLayer::DvorakSeMac, KeymapLayer::QwertyGaming]
}

/// A clockwise encoder step on a base layer makes the next base layer of
/// `base_cycle` the permanent one and announces it, so four steps come back
/// round; on a temporary layer a step changes nothing and announces
/// nothing.
pub proof fn lemma_clockwise_cycles_base_layers(m: ReportStateView, i: int)
    requires
        0 <= i < 4,
    ensures
        m.active_layer == base_cycle()[i] ==> ({
            let (n, notice) = rotate_effect(true, m);
            &&& n.active_layer == base_cycle()[(i + 1) % 4]
            &&& n.last_perm_layer is None
            &&& notice == Some(KeyNotice::LayerChange(base_cycle()[(i + 1) % 4]))
        }),
        (forall|j: int| 0 <= j < 4 ==> m.active_layer != #[trigger] base_cycle()[j]) ==> rotate_effect(true, m)
            == (m, None::<KeyNotice>) && rotate_effect(false, m) == (m, None::<KeyNotice>),
{
    assert(i == 0 || i == 1 || i == 2 || i == 3);
    if forall|j: int| 0 <= j < 4 ==> m.active_layer != #[trigger] base_cycle()[j] {
        assert(m.active_layer != base_cycle()[0]);
        assert(m.active_layer != base_cycle()[1]);
        assert(m.active_layer != base_cycle()[2]);
        assert(m.active_layer != base_cycle()[3]);
    }
}

/// The encoder turned one step and back returns to the same base layer,
/// except clockwise from `DvorakSeMac` (counter-clockwise from
/// `QwertyGaming` leads to `DvorakAnsi`).
pub proof fn lemma_rotate_back_clockwise_first(m: ReportStateView)
    requires
        rotated_layer(m.active_layer, true) is Some,
        m.active_layer != KeymapLayer::DvorakSeMac,
    ensures
        rotate_effect(false, rotate_effect(true, m).0).0.active_layer == m.active_layer,
{
}

/// The encoder turned one step counter-clockwise and back returns to the
/// same base layer, except from `QwertyGaming`.
pub proof fn lemma_rotate_back_counter_clockwise_first(m: ReportStateView)
    requires
        rotated_layer(m.active_layer, false) is Some,
        m.active_layer != KeymapLayer::QwertyGaming,
    ensures
        rotate_effect(true, rotate_effect(false, m).0).0.active_layer == m.active_layer,
{
}

/// A key whose release restores the user's state does so when no other key
/// went down since its press, and changes nothing otherwise.
#[verifier::rlimit(60)]
#[verifier::spinoff_prover]
pub proof fn lemma_release_restores_unless_stale(side: Side, index: u8, m: ReportStateView, later: ReportStateView)
    requires
        ({
            let (last, pressed, _n) = key_event(None, side, index, m);
            last matches Some(prev) && release_action(side, index, prev) == ReleaseAction::Restore
        }),
    ensures
        ({
            let (last, pressed, _n) = key_event(None, side, index, m);
            let (after, released, _r) = key_event(last, side, index, later);
            &&& after is None
            &&& if later.generation == pressed.generation {
                &&& released.report.modifier == later.user_mods
                &&& released.report.keycodes == later.user_keys
            } else {
                released == later
            }
        }),
{
    reveal(release_effect);
    reveal(press_effect);
    let (last, pressed, _n) = key_event(None, side, index, m);
    lemma_restore_shows_user_state(later);
}

/// A key that presses a key code for the user and releases the same code
/// leaves the user's keys as they were, when the code was not held and a
/// slot was free.
#[verifier::rlimit(60)]
#[verifier::spinoff_prover]
pub proof fn lemma_plain_key_round_trip(side: Side, index: u8, m: ReportStateView, k: u8)
    requires
        press_action(side, index, m.last_perm_layer, m.active_layer) == PressAction::Key(k),
        ({
            let (last, pressed, _n) = key_event(None, side, index, m);
            last matches Some(prev) && release_action(side, index, prev) == ReleaseAction::Key(k)
        }),
        packed(m.user_keys),
        k != 0,
        key_position(m.user_keys, k, 0) is None,
        m.user_keys[5] == 0,
    ensures
        ({
            let (last, pressed, _n) = key_event(None, side, index, m);
            let (after, released, _r) = key_event(last, side, index, pressed);
            &&& after is None
            &&& released.user_keys == m.user_keys
            &&& released.report.keycodes == m.user_keys
        }),
{
    reveal(release_effect);
    reveal(press_effect);
    let restored = m.restore_to_user_state();
    lemma_restore_shows_user_state(m);
    lemma_push_then_pop_key(restored, k);
}


/// On the layers where a key presses a plain key code for the user, its
/// release (with those layers unchanged) releases the same code. The
/// exceptions: right key 22 on `QwertyGaming`, whose release presses its
/// code again, and left key 22 with a lower layer over `QwertyGaming`,
/// where its release leaves that layer.
#[verifier::rlimit(50)]
pub proof fn lemma_plain_presses_are_released(
    side: Side,
    index: u8,
    perm: Option<KeymapLayer>,
    active: KeymapLayer,
    generation: usize,
    k: u8,
)
    requires
        press_action(side, index, perm, active) == PressAction::Key(k),
        !(side == Side::Right && index == 22),
        !(side == Side::Left && index == 22 && (active == KeymapLayer::Lower || active
            == KeymapLayer::LowerAnsi || active == KeymapLayer::LowerSeMac)),
    ensures
        release_action(
            side,
            index,
            LastPressState { generation, layer: active, last_perm_layer: perm },
        ) == ReleaseAction::Key(k),
{
}


/// On the layers where a key sends a key code with temporary modifiers, its
/// release (with those layers unchanged) goes back to the user's state.
#[verifier::rlimit(50)]
pub proof fn lemma_temp_presses_are_restored(
    side: Side,
    index: u8,
    perm: Option<KeymapLayer>,
    active: KeymapLayer,
    generation: usize,
)
    requires
        press_action(side, index, perm, active) is Temp,
    ensures
        release_action(
            side,
            index,
            LastPressState { generation, layer: active, last_perm_layer: perm },
        ) == ReleaseAction::Restore,
{
}

/// On the layers where a key holds a modifier for the user, its release
/// (with those layers unchanged) lets the same modifier go.
#[verifier::rlimit(50)]
pub proof fn lemma_modifier_presses_are_released(
    side: Side,
    index: u8,
    perm: Option<KeymapLayer>,
    active: KeymapLayer,
    generation: usize,
    x: u8,
)
    requires
        press_action(side, index, perm, active) == PressAction::Modifier(x),
    ensures
        release_action(
            side,
            index,
            LastPressState { generation, layer: active, last_perm_layer: perm },
        ) == ReleaseAction::Modifier(x),
{
}


/// A key that switches to a temporary layer leaves that layer when it is
/// released, judged by the layers in force after its press.
#[verifier::rlimit(50)]
pub proof fn lemma_temp_layer_keys_leave_their_layer(
    side: Side,
    index: u8,
    perm: Option<KeymapLayer>,
    active: KeymapLayer,
    generation: usize,
    layer: KeymapLayer,
)
    requires
        press_action(side, index, perm, active) == PressAction::TempLayer(layer),
    ensures
        release_action(
            side,
            index,
            LastPressState {
                generation,
                layer,
                last_perm_layer: Some(
                    match perm {
                        Some(p) => p,
                        None => active,
                    },
                ),
            },
        ) == ReleaseAction::TempLayer(layer),
{
}

/// A byte decodes to one change only.
pub proof fn lemma_decoding_unique(b: u8, c: MatrixChange)
    requires
        decodes_to(b, c),
    ensures
        forall|c2: MatrixChange| decodes_to(b, c2) ==> c2 == c,
{
    assert forall|c2: MatrixChange| decodes_to(b, c2) implies c2 == c by {
        match (c, c2) {
            (MatrixChange::KeyUpdate(i, s), MatrixChange::KeyUpdate(i2, s2)) => {
                crate::matrix::lemma_index_eq(i, i2);
            },
            _ => {},
        }
    }
}

} // verus!
