//! Key matrix coordinates and the one-byte wire format that the right half
//! sends to the left half.
use vstd::prelude::*;

verus! {

pub const NUM_ROWS: u8 = 5;

pub const NUM_COLS: u8 = 6;

#[derive(Debug, Copy, Clone)]
pub struct RowIndex(pub u8);

impl RowIndex {
    /// A row index; values outside the matrix are refused.
    pub fn from_value(ind: u8) -> (r: Self)
        requires
            ind < NUM_ROWS,
        ensures
            r.0 == ind,
    {
        RowIndex(ind)
    }

    pub fn index(self) -> (r: usize)
        ensures
            r == self.0,
    {
        self.0 as usize
    }
}

#[derive(Debug, Copy, Clone)]
pub struct ColIndex(pub u8);

impl ColIndex {
    pub fn from_value(ind: u8) -> (r: Self)
        requires
            ind < NUM_COLS,
        ensures
            r.0 == ind,
    {
        ColIndex(ind)
    }
}

/// Position of a key in the matrix, `row * NUM_COLS + col`: one of the 30
/// key slots, below 30.
#[derive(Debug, Copy, Clone)]
pub struct MatrixIndex(u8);

impl MatrixIndex {
    #[verifier::type_invariant]
    closed spec fn inv(self) -> bool {
        self.0 < 30
    }

    /// The index as a number.
    pub closed spec fn val(self) -> u8 {
        self.0
    }

    /// The slot `row * NUM_COLS + col`. It must be one of the 30 key slots:
    /// the patterns 30 and 31 name no key on the wire, and every row and
    /// column made by `from_value` gives a slot below 30.
    pub fn from_row_col(row_index: RowIndex, col_index: ColIndex) -> (r: Self)
        requires
            row_index.0 * NUM_COLS + col_index.0 < 30,
        ensures
            r.val() == row_index.0 * NUM_COLS + col_index.0,
    {
        MatrixIndex(row_index.0 * NUM_COLS + col_index.0)
    }

    pub fn byte(&self) -> (r: u8)
        ensures
            r == self.val(),
            r < 30,
    {
        proof {
            use_type_invariant(self);
        }
        self.0
    }

    pub fn index(&self) -> (r: usize)
        ensures
            r == self.val(),
            r < 30,
    {
        proof {
            use_type_invariant(self);
        }
        self.0 as usize
    }
}

/// Bit holding the pressed state of a key update.
pub const KEY_STATE_BIT: u8 = 0x20;

/// Bits holding the matrix index of a key update.
pub const KEY_INDEX_MASK: u8 = 0x1f;

/// Bit holding the direction of an encoder update.
pub const ENCODER_STATE_BIT: u8 = 0x80;

/// Byte of a clockwise encoder step; its two top bits mark an encoder update.
pub const ENCODER_ON: u8 = 0xc0;

/// Byte of a counter-clockwise encoder step.
pub const ENCODER_OFF: u8 = 0x40;

/// One matrix event as a single byte: either a key update (index in the low
/// five bits, pressed state in bit 5) or an encoder step (bits 6 and 7).
/// The index bits never hold 30 or 31, the two patterns that name no key.
#[derive(Debug, Copy, Clone)]
pub struct MatrixUpdate(u8);

#[derive(Debug, Copy, Clone)]
pub enum MatrixChange {
    KeyUpdate(MatrixIndex, bool),
    EncoderUpdate(bool),
}

/// The bytes that the receiving half accepts.
pub open spec fn is_valid_update_byte(b: u8) -> bool {
    b & KEY_INDEX_MASK < 30
}

/// What a byte means on the wire.
pub open spec fn decodes_to(b: u8, change: MatrixChange) -> bool {
    match change {
        MatrixChange::KeyUpdate(i, s) => {
            &&& b & ENCODER_ON == 0
            &&& i.val() == b & KEY_INDEX_MASK
            &&& s == (b & KEY_STATE_BIT != 0)
        },
        MatrixChange::EncoderUpdate(c) => {
            &&& b & ENCODER_ON != 0
            &&& c == (b & ENCODER_STATE_BIT != 0)
        },
    }
}

impl MatrixUpdate {
    #[verifier::type_invariant]
    closed spec fn inv(self) -> bool {
        is_valid_update_byte(self.0)
    }

    /// The byte on the wire.
    pub closed spec fn val(self) -> u8 {
        self.0
    }

    /// Accepts a received byte unless its index bits hold one of the two
    /// patterns that name no key (30 and 31).
    pub fn from_byte(byte: u8) -> (r: Option<Self>)
        ensures
            r is Some <==> is_valid_update_byte(byte),
            r matches Some(u) ==> u.val() == byte,
    {
        let ind = byte & KEY_INDEX_MASK;
        if ind < 30 {
            Some(MatrixUpdate(byte))
        } else {
            None
        }
    }

    pub fn from_key_update(index: MatrixIndex, state: bool) -> (r: Self)
        ensures
            r.val() == (if state {
                index.val() | KEY_STATE_BIT
            } else {
                index.val()
            }),
    {
        proof {
            use_type_invariant(index);
        }
        let i = index.0;
        let mut val = i;
        if state {
            val = val | KEY_STATE_BIT;
        }
        assert(val & 0x1f < 30) by (bit_vector)
            requires
                i < 30,
                val == i || val == i | 0x20,
        ;
        MatrixUpdate(val)
    }

    pub fn from_rotary_change(clockwise: bool) -> (r: Self)
        ensures
            r.val() == (if clockwise {
                ENCODER_ON
            } else {
                ENCODER_OFF
            }),
    {
        assert(0xc0u8 & 0x1f < 30 && 0x40u8 & 0x1f < 30) by (bit_vector);
        if clockwise {
            MatrixUpdate(ENCODER_ON)
        } else {
            MatrixUpdate(ENCODER_OFF)
        }
    }

    pub fn interpret_byte(&self) -> (r: MatrixChange)
        ensures
            decodes_to(self.val(), r),
    {
        proof {
            use_type_invariant(self);
        }
        let b = self.0;
        let encoder = b & ENCODER_ON;
        if encoder == 0 {
            let idx = b & KEY_INDEX_MASK;
            let state = b & KEY_STATE_BIT;
            MatrixChange::KeyUpdate(MatrixIndex(idx), state != 0)
        } else {
            assert(encoder & 0x80 == b & 0x80) by (bit_vector)
                requires
                    encoder == b & 0xc0,
            ;
            MatrixChange::EncoderUpdate(encoder & ENCODER_STATE_BIT != 0)
        }
    }

    pub fn byte(self) -> (r: u8)
        ensures
            r == self.val(),
            is_valid_update_byte(r),
    {
        proof {
            use_type_invariant(self);
        }
        self.0
    }
}

/// Matrix indexes are equal when their numbers are.
pub proof fn lemma_index_eq(a: MatrixIndex, b: MatrixIndex)
    requires
        a.val() == b.val(),
    ensures
        a == b,
{
}

/// Row and column of a matrix index.
pub fn matrix_ind_to_row_col(matrix_ind: u8) -> (r: (u8, u8))
    ensures
        r.0 == matrix_ind / NUM_COLS,
        r.1 == matrix_ind % NUM_COLS,
{
    (matrix_ind / NUM_COLS, matrix_ind % NUM_COLS)
}

/// A key update read back off the wire gives the key and the state that
/// were sent.
pub proof fn lemma_key_update_round_trip(index: MatrixIndex, state: bool, u: MatrixUpdate, change: MatrixChange)
    requires
        index.val() < 30,
        u.val() == (if state {
            index.val() | KEY_STATE_BIT
        } else {
            index.val()
        }),
        decodes_to(u.val(), change),
    ensures
        change matches MatrixChange::KeyUpdate(i, s) && i.val() == index.val() && s == state,
{
    let v = index.val();
    let b = u.val();
    assert(b & 0xc0 == 0 && b & 0x1f == v && ((b & 0x20 != 0) == state)) by (bit_vector)
        requires
            v < 30,
            b == (if state { v | 0x20 } else { v }),
    ;
}

/// An encoder step read back off the wire gives the direction that was sent.
pub proof fn lemma_encoder_round_trip(clockwise: bool, u: MatrixUpdate, change: MatrixChange)
    requires
        u.val() == (if clockwise {
            ENCODER_ON
        } else {
            ENCODER_OFF
        }),
        decodes_to(u.val(), change),
    ensures
        change == MatrixChange::EncoderUpdate(clockwise),
{
    assert(0xc0u8 & 0xc0 != 0 && 0x40u8 & 0xc0 != 0 && 0xc0u8 & 0x80 != 0 && 0x40u8 & 0x80 == 0)
        by (bit_vector);
}

} // verus!
