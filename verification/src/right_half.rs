//! The right half: its own key matrix, debounced and turned into one-byte
//! updates for the left half, and the rotary encoder on row 4, column 5.
use vstd::prelude::*;
use crate::debounce::{DebounceView, PinDebouncer, debounce_submit};
use crate::matrix::{ColIndex, MatrixIndex, MatrixUpdate, RowIndex, KEY_STATE_BIT, ENCODER_ON, ENCODER_OFF};

verus! {

/// GPIO bits of the right half's row pins.
pub const RIGHT_ROW0: u32 = 0x2000_0000;
pub const RIGHT_ROW1: u32 = 0x0000_0010;
pub const RIGHT_ROW2: u32 = 0x0010_0000;
pub const RIGHT_ROW3: u32 = 0x0080_0000;
pub const RIGHT_ROW4: u32 = 0x0020_0000;
/// All right row pins.
pub const RIGHT_ROW_MASK: u32 = 0x20b0_0010;

pub open spec fn right_row_bit(row: int) -> u32 {
    if row == 0 {
        RIGHT_ROW0
    } else if row == 1 {
        RIGHT_ROW1
    } else if row == 2 {
        RIGHT_ROW2
    } else if row == 3 {
        RIGHT_ROW3
    } else {
        RIGHT_ROW4
    }
}

/// The GPIO pin each right row is wired to, top row first.
pub open spec fn right_row_pin(row: int) -> u32 {
    seq![29u32, 4u32, 20u32, 23u32, 21u32][row]
}

/// Each right row is read on its own pin: row `r` reads the bit of the
/// GPIO pin it is wired to, that bit is one of the row mask, and with only
/// row `r`'s pin low among the row pins, row `r` and no other reads as
/// pressed.
pub proof fn lemma_right_rows_read_their_pins(r: int, s: int)
    requires
        0 <= r < 5,
        0 <= s < 5,
    ensures
        right_row_bit(r) == 1u32 << right_row_pin(r),
        RIGHT_ROW_MASK & right_row_bit(r) == right_row_bit(r),
        ((RIGHT_ROW_MASK & !right_row_bit(r)) & right_row_bit(s) == 0) <==> r == s,
{
    assert(
        RIGHT_ROW0 == 1u32 << 29u32 &&
        RIGHT_ROW_MASK & RIGHT_ROW0 == RIGHT_ROW0 &&
        (RIGHT_ROW_MASK & !RIGHT_ROW0) & RIGHT_ROW0 == 0 &&
        (RIGHT_ROW_MASK & !RIGHT_ROW0) & RIGHT_ROW1 != 0 &&
        (RIGHT_ROW_MASK & !RIGHT_ROW0) & RIGHT_ROW2 != 0 &&
        (RIGHT_ROW_MASK & !RIGHT_ROW0) & RIGHT_ROW3 != 0 &&
        (RIGHT_ROW_MASK & !RIGHT_ROW0) & RIGHT_ROW4 != 0 &&
        RIGHT_ROW1 == 1u32 << 4u32 &&
        RIGHT_ROW_MASK & RIGHT_ROW1 == RIGHT_ROW1 &&
        (RIGHT_ROW_MASK & !RIGHT_ROW1) & RIGHT_ROW0 != 0 &&
        (RIGHT_ROW_MASK & !RIGHT_ROW1) & RIGHT_ROW1 == 0 &&
        (RIGHT_ROW_MASK & !RIGHT_ROW1) & RIGHT_ROW2 != 0 &&
        (RIGHT_ROW_MASK & !RIGHT_ROW1) & RIGHT_ROW3 != 0 &&
        (RIGHT_ROW_MASK & !RIGHT_ROW1) & RIGHT_ROW4 != 0 &&
        RIGHT_ROW2 == 1u32 << 20u32 &&
        RIGHT_ROW_MASK & RIGHT_ROW2 == RIGHT_ROW2 &&
        (RIGHT_ROW_MASK & !RIGHT_ROW2) & RIGHT_ROW0 != 0 &&
        (RIGHT_ROW_MASK & !RIGHT_ROW2) & RIGHT_ROW1 != 0 &&
        (RIGHT_ROW_MASK & !RIGHT_ROW2) & RIGHT_ROW2 == 0 &&
        (RIGHT_ROW_MASK & !RIGHT_ROW2) & RIGHT_ROW3 != 0 &&
        (RIGHT_ROW_MASK & !RIGHT_ROW2) & RIGHT_ROW4 != 0 &&
        RIGHT_ROW3 == 1u32 << 23u32 &&
        RIGHT_ROW_MASK & RIGHT_ROW3 == RIGHT_ROW3 &&
        (RIGHT_ROW_MASK & !RIGHT_ROW3) & RIGHT_ROW0 != 0 &&
        (RIGHT_ROW_MASK & !RIGHT_ROW3) & RIGHT_ROW1 != 0 &&
        (RIGHT_ROW_MASK & !RIGHT_ROW3) & RIGHT_ROW2 != 0 &&
        (RIGHT_ROW_MASK & !RIGHT_ROW3) & RIGHT_ROW3 == 0 &&
        (RIGHT_ROW_MASK & !RIGHT_ROW3) & RIGHT_ROW4 != 0 &&
        RIGHT_ROW4 == 1u32 << 21u32 &&
        RIGHT_ROW_MASK & RIGHT_ROW4 == RIGHT_ROW4 &&
        (RIGHT_ROW_MASK & !RIGHT_ROW4) & RIGHT_ROW0 != 0 &&
        (RIGHT_ROW_MASK & !RIGHT_ROW4) & RIGHT_ROW1 != 0 &&
        (RIGHT_ROW_MASK & !RIGHT_ROW4) & RIGHT_ROW2 != 0 &&
        (RIGHT_ROW_MASK & !RIGHT_ROW4) & RIGHT_ROW3 != 0 &&
        (RIGHT_ROW_MASK & !RIGHT_ROW4) & RIGHT_ROW4 == 0
    ) by (bit_vector);
    assert(r == 0 || r == 1 || r == 2 || r == 3 || r == 4);
    assert(s == 0 || s == 1 || s == 2 || s == 3 || s == 4);
}

fn right_row_bit_of(row: usize) -> (r: u32)
    ensures
        r == right_row_bit(row as int),
{
    if row == 0 {
        RIGHT_ROW0
    } else if row == 1 {
        RIGHT_ROW1
    } else if row == 2 {
        RIGHT_ROW2
    } else if row == 3 {
        RIGHT_ROW3
    } else {
        RIGHT_ROW4
    }
}

/// Rows with a key in a right column: row 4 has none under column 0 and
/// holds the encoder under column 5.
pub open spec fn right_rows_in_column(col: int) -> int {
    if col == 0 || col == 5 {
        4
    } else {
        5
    }
}

/// Every right key slot is read by the scan of its column except slot 24
/// (row 4, column 0), which has no key, and slot 29 (row 4, column 5),
/// where the encoder sits: column `c` reads row `r` exactly when the slot
/// `r * 6 + c` holds a key.
pub proof fn lemma_every_right_key_is_scanned(idx: int)
    requires
        0 <= idx < 30,
    ensures
        (idx / 6 < right_rows_in_column(idx % 6)) <==> idx != 24 && idx != 29,
{
}

/// The key that reboots the keyboard into its bootloader.
pub open spec fn is_reboot_key(row: int, col: int) -> bool {
    row == 4 && col == 2
}

/// The wire byte of a key update.
pub open spec fn key_update_byte(index: int, pressed: bool) -> u8 {
    if pressed {
        (index as u8) | KEY_STATE_BIT
    } else {
        index as u8
    }
}

pub struct RightPinView {
    pub pressed: bool,
    pub debounce: DebounceView,
}

/// A right key read as `pressed` at `now`: the key after, and the byte to
/// send if the change is accepted.
pub open spec fn right_key_step(pin: RightPinView, row: int, col: int, pressed: bool, now: u64) -> (
    RightPinView,
    Option<u8>,
) {
    if pin.pressed != pressed {
        let (d, accepted) = debounce_submit(pin.debounce, now, pressed);
        if accepted {
            (RightPinView { pressed, debounce: d }, Some(key_update_byte(row * 6 + col, pressed)))
        } else {
            (RightPinView { debounce: d, ..pin }, None)
        }
    } else {
        (pin, None)
    }
}

pub open spec fn byte_seq(b: Option<u8>) -> Seq<u8> {
    match b {
        Some(x) => seq![x],
        None => Seq::empty(),
    }
}

/// Scanning rows `row..` of right column `col` with the row pins read as
/// `bank`: the keys after, the bytes to send in order, and whether the
/// reboot key changed, which ends the scan.
pub open spec fn right_scan_from(keys: Seq<RightPinView>, col: int, row: int, bank: u32, now: u64) -> (
    Seq<RightPinView>,
    Seq<u8>,
    bool,
)
    decreases 5 - row,
{
    if row >= right_rows_in_column(col) || row < 0 {
        (keys, Seq::empty(), false)
    } else {
        let idx = row * 6 + col;
        let (p, b) = right_key_step(keys[idx], row, col, bank & right_row_bit(row) == 0, now);
        let keys1 = keys.update(idx, p);
        if b is Some && is_reboot_key(row, col) {
            (keys1, byte_seq(b), true)
        } else {
            let (k2, bs, reboot) = right_scan_from(keys1, col, row + 1, bank, now);
            (k2, byte_seq(b) + bs, reboot)
        }
    }
}

#[derive(Copy, Clone, Debug)]
struct RightPinState {
    pressed: bool,
    debounce: PinDebouncer,
}

impl RightPinState {
    spec fn pin_view(self) -> RightPinView {
        RightPinView { pressed: self.pressed, debounce: self.debounce@ }
    }
}

spec fn right_pin_views(pins: Seq<RightPinState>) -> Seq<RightPinView> {
    pins.map_values(|p: RightPinState| p.pin_view())
}

/// The debounced key states of the right half, by matrix index.
pub struct RightMatrix {
    pin_states: Vec<RightPinState>,
}

impl View for RightMatrix {
    type V = Seq<RightPinView>;

    open spec fn view(&self) -> Seq<RightPinView> {
        self.pins_view()
    }
}

impl RightMatrix {
    pub closed spec fn pins_view(&self) -> Seq<RightPinView> {
        right_pin_views(self.pin_states@)
    }

    pub closed spec fn wf(&self) -> bool {
        self.pin_states@.len() == 30
    }

    /// No key pressed, nothing debounced yet.
    pub fn new() -> (r: Self)
        ensures
            r.wf(),
            r@.len() == 30,
            forall|i: int|
                0 <= i < 30 ==> #[trigger] r@[i] == (RightPinView {
                    pressed: false,
                    debounce: DebounceView { last_touch: None, quarantined: None },
                }),
    {
        let mut pin_states: Vec<RightPinState> = Vec::new();
        let mut i: usize = 0;
        while i < 30
            invariant
                i <= 30,
                pin_states@.len() == i,
                forall|j: int|
                    0 <= j < i ==> #[trigger] pin_states@[j].pin_view() == (RightPinView {
                        pressed: false,
                        debounce: DebounceView { last_touch: None, quarantined: None },
                    }),
            decreases 30 - i,
        {
            pin_states.push(RightPinState { pressed: false, debounce: PinDebouncer::new() });
            i = i + 1;
        }
        RightMatrix { pin_states }
    }

    /// Scans right column `col` whose row pins read as `bank` at `now`,
    /// appending the updates to send to `out`; true when the reboot key
    /// changed, after which the rest of the column is left unscanned.
    pub fn scan_column(&mut self, col: usize, bank: u32, now: u64, out: &mut Vec<MatrixUpdate>) -> (r: bool)
        requires
            old(self).wf(),
            col < 6,
        ensures
            final(self).wf(),
            ({
                let (keys, bytes, reboot) = right_scan_from(old(self)@, col as int, 0, bank, now);
                &&& final(self)@ == keys
                &&& final(out)@.map_values(|u: MatrixUpdate| u.val()) == old(out)@.map_values(
                    |u: MatrixUpdate| u.val(),
                ) + bytes
                &&& r == reboot
            }),
    {
        let rows: usize = if col == 0 || col == 5 {
            4
        } else {
            5
        };
        let ghost target = right_scan_from(old(self)@, col as int, 0, bank, now);
        let ghost mut acc: Seq<u8> = Seq::empty();
        let mut row: usize = 0;
        assert(out@.map_values(|u: MatrixUpdate| u.val()) =~= old(out)@.map_values(|u: MatrixUpdate| u.val()) + acc);
        while row < rows
            invariant
                row <= rows,
                rows == right_rows_in_column(col as int),
                col < 6,
                self.wf(),
                target == right_scan_from(old(self)@, col as int, 0, bank, now),
                out@.map_values(|u: MatrixUpdate| u.val()) == old(out)@.map_values(|u: MatrixUpdate| u.val())
                    + acc,
                target == ({
                    let rest = right_scan_from(self@, col as int, row as int, bank, now);
                    (rest.0, acc + rest.1, rest.2)
                }),
            decreases rows - row,
        {
            let idx = row * 6 + col;
            let pressed = bank & right_row_bit_of(row) == 0;
            let ghost before = self@;
            let ghost before_out = out@;
            let ghost before_acc = acc;
            let mut pin = self.pin_states[idx];
            let mut sent = false;
            if pin.pressed != pressed && pin.debounce.try_submit(now, pressed) {
                let index = MatrixIndex::from_row_col(RowIndex::from_value(row as u8), ColIndex::from_value(col as u8));
                out.push(MatrixUpdate::from_key_update(index, pressed));
                pin.pressed = pressed;
                sent = true;
            }
            self.pin_states.set(idx, pin);
            proof {
                assert(right_pin_views(self.pin_states@) =~= before.update(idx as int, pin.pin_view()));
                let step = right_key_step(before[idx as int], row as int, col as int, pressed, now);
                assert(step.0 == pin.pin_view());
                assert(out@.map_values(|u: MatrixUpdate| u.val()) =~= before_out.map_values(|u: MatrixUpdate| u.val())
                    + byte_seq(step.1));
                let rest = right_scan_from(self@, col as int, row + 1, bank, now);
                assert((acc + byte_seq(step.1)) + rest.1 =~= acc + (byte_seq(step.1) + rest.1));
                assert(out@.map_values(|u: MatrixUpdate| u.val()) =~= old(out)@.map_values(|u: MatrixUpdate| u.val())
                    + (acc + byte_seq(step.1)));
                acc = acc + byte_seq(step.1);
            }
            if sent && row == 4 && col == 2 {
                proof {
                    let step = right_key_step(before[idx as int], row as int, col as int, pressed, now);
                    assert(step.1 is Some);
                    assert(right_scan_from(before, col as int, row as int, bank, now) == (
                        self@,
                        byte_seq(step.1),
                        true,
                    ));
                    assert(target.1 =~= acc);
                }
                return true;
            }
            row = row + 1;
        }
        assert(target.1 =~= acc);
        false
    }
}

/// Where the encoder's two contacts put it, as a quarter turn.
#[derive(Copy, Clone, Debug, PartialEq, Eq, Structural)]
pub enum RotaryPosition {
    North,
    East,
    South,
    West,
}

pub open spec fn position_of(a: bool, b: bool) -> RotaryPosition {
    match (a, b) {
        (true, true) => RotaryPosition::South,
        (false, true) => RotaryPosition::West,
        (false, false) => RotaryPosition::North,
        (true, false) => RotaryPosition::East,
    }
}

impl RotaryPosition {
    pub fn from_state(a: bool, b: bool) -> (r: Self)
        ensures
            r == position_of(a, b),
    {
        match (a, b) {
            (true, true) => RotaryPosition::South,
            (false, true) => RotaryPosition::West,
            (false, false) => RotaryPosition::North,
            (true, false) => RotaryPosition::East,
        }
    }
}

/// The direction of a quarter turn between two positions, if they are
/// neighbours: clockwise is North, East, South, West.
pub open spec fn turn_direction(old: RotaryPosition, current: RotaryPosition) -> Option<bool> {
    match (old, current) {
        (RotaryPosition::North, RotaryPosition::East)
        | (RotaryPosition::East, RotaryPosition::South)
        | (RotaryPosition::South, RotaryPosition::West)
        | (RotaryPosition::West, RotaryPosition::North) => Some(true),
        (RotaryPosition::North, RotaryPosition::West)
        | (RotaryPosition::West, RotaryPosition::South)
        | (RotaryPosition::South, RotaryPosition::East)
        | (RotaryPosition::East, RotaryPosition::North) => Some(false),
        _ => None,
    }
}

pub struct EncoderView {
    pub last_position: Option<RotaryPosition>,
    pub last_clockwise: Option<bool>,
    pub cached: Option<bool>,
}

/// A read of the encoder at `current`: the encoder after, and a step once
/// three quarter turns in a row went the same way.
pub open spec fn encoder_scan(e: EncoderView, current: RotaryPosition) -> (EncoderView, Option<bool>) {
    match e.last_position {
        None => (EncoderView { last_position: Some(current), ..e }, None),
        Some(old) => match turn_direction(old, current) {
            None => (EncoderView { last_position: Some(current), ..e }, None),
            Some(dir) => match e.last_clockwise {
                None => (EncoderView { last_position: Some(current), last_clockwise: Some(dir), ..e }, None),
                Some(last) => {
                    let moved = EncoderView { last_position: Some(current), last_clockwise: Some(dir), ..e };
                    if last == dir {
                        if e.cached == Some(last) {
                            (EncoderView { cached: None, ..moved }, Some(last))
                        } else {
                            (EncoderView { cached: Some(dir), ..moved }, None)
                        }
                    } else {
                        (moved, None)
                    }
                },
            },
        },
    }
}

/// The debouncing state of the rotary encoder.
pub struct RotaryEncoder {
    last_position: Option<RotaryPosition>,
    last_clockwise: Option<bool>,
    cached: Option<bool>,
}

impl View for RotaryEncoder {
    type V = EncoderView;

    open spec fn view(&self) -> EncoderView {
        self.encoder_view()
    }
}

impl RotaryEncoder {
    pub closed spec fn encoder_view(&self) -> EncoderView {
        EncoderView {
            last_position: self.last_position,
            last_clockwise: self.last_clockwise,
            cached: self.cached,
        }
    }

    pub fn new() -> (r: Self)
        ensures
            r@ == (EncoderView { last_position: None, last_clockwise: None, cached: None }),
    {
        RotaryEncoder { last_position: None, last_clockwise: None, cached: None }
    }

    /// Reads the encoder whose contacts are `dt_high` and `clk_high`; a
    /// step is clockwise when true.
    pub fn scan_debounced(&mut self, dt_high: bool, clk_high: bool) -> (r: Option<bool>)
        ensures
            (final(self)@, r) == encoder_scan(old(self)@, position_of(dt_high, clk_high)),
    {
        let current = RotaryPosition::from_state(dt_high, clk_high);
        let old = match self.last_position {
            Some(o) => o,
            None => {
                self.last_position = Some(current);
                return None;
            },
        };
        let dir = match (old, current) {
            (RotaryPosition::North, RotaryPosition::East)
            | (RotaryPosition::East, RotaryPosition::South)
            | (RotaryPosition::South, RotaryPosition::West)
            | (RotaryPosition::West, RotaryPosition::North) => true,
            (RotaryPosition::North, RotaryPosition::West)
            | (RotaryPosition::West, RotaryPosition::South)
            | (RotaryPosition::South, RotaryPosition::East)
            | (RotaryPosition::East, RotaryPosition::North) => false,
            (_, _) => {
                self.last_position = Some(current);
                return None;
            },
        };
        self.last_position = Some(current);
        let last = match self.last_clockwise {
            Some(l) => l,
            None => {
                self.last_clockwise = Some(dir);
                return None;
            },
        };
        self.last_clockwise = Some(dir);
        if last == dir {
            if let Some(prev) = self.cached {
                if prev == last {
                    return self.cached.take();
                }
            }
            self.cached = Some(dir);
        }
        None
    }
}

/// The update that an encoder step sends.
pub fn encoder_update(clockwise: bool) -> (r: MatrixUpdate)
    ensures
        r.val() == (if clockwise {
            ENCODER_ON
        } else {
            ENCODER_OFF
        }),
{
    MatrixUpdate::from_rotary_change(clockwise)
}

/// The contact readings `(dt, clk)` one quarter turn clockwise from
/// `(dt, clk)`: the two contacts follow each other with `dt` leading.
pub open spec fn clockwise_next(dt: bool, clk: bool) -> (bool, bool) {
    (!clk, dt)
}

/// A quarter turn to the readings `clockwise_next` names is clockwise, and
/// the way back is counter-clockwise; from a fresh encoder at any reading,
/// three quarter turns clockwise give one clockwise step, at the third,
/// and three back give one counter-clockwise step.
pub proof fn lemma_quarter_turns_step(dt: bool, clk: bool)
    ensures
        ({
            let (d1, c1) = clockwise_next(dt, clk);
            &&& turn_direction(position_of(dt, clk), position_of(d1, c1)) == Some(true)
            &&& turn_direction(position_of(d1, c1), position_of(dt, clk)) == Some(false)
        }),
        ({
            let fresh = EncoderView { last_position: None, last_clockwise: None, cached: None };
            let (d1, c1) = clockwise_next(dt, clk);
            let (d2, c2) = clockwise_next(d1, c1);
            let (d3, c3) = clockwise_next(d2, c2);
            let (e0, s0) = encoder_scan(fresh, position_of(dt, clk));
            let (e1, s1) = encoder_scan(e0, position_of(d1, c1));
            let (e2, s2) = encoder_scan(e1, position_of(d2, c2));
            let (e3, s3) = encoder_scan(e2, position_of(d3, c3));
            let (f0, t0) = encoder_scan(fresh, position_of(d3, c3));
            let (f1, t1) = encoder_scan(f0, position_of(d2, c2));
            let (f2, t2) = encoder_scan(f1, position_of(d1, c1));
            let (f3, t3) = encoder_scan(f2, position_of(dt, clk));
            &&& s0 is None && s1 is None && s2 is None && s3 == Some(true)
            &&& t0 is None && t1 is None && t2 is None && t3 == Some(false)
        }),
{
}

/// Turning back never steps at once: a quarter turn against the last one
/// gives no step.
pub proof fn lemma_reversal_gives_no_step(e: EncoderView, current: RotaryPosition)
    requires
        e.last_position matches Some(old) && (turn_direction(old, current) matches Some(dir) && e.last_clockwise
            == Some(!dir)),
    ensures
        encoder_scan(e, current).1 is None,
        encoder_scan(e, current).0.last_clockwise == Some(!e.last_clockwise->0),
{
}

} // verus!
