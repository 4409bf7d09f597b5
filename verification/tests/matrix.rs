use rp2040_kbd::matrix::{
    matrix_ind_to_row_col, ColIndex, MatrixChange, MatrixIndex, MatrixUpdate, RowIndex, NUM_COLS,
};

#[test]
fn update_from_key() {
    let r1 = RowIndex::from_value(1);
    let c1 = ColIndex::from_value(4);
    let m1 = MatrixIndex::from_row_col(r1, c1);
    let mu1 = MatrixUpdate::from_key_update(m1, true);
    assert_eq!(0b00101010, mu1.byte(), "{:b}", mu1.byte());
    let expect_ind: u8 = r1.0 * NUM_COLS + c1.0;
    assert!(matches!(
        mu1.interpret_byte(),
        MatrixChange::KeyUpdate(i, true) if i.byte() == expect_ind
    ));
    let mu2 = MatrixUpdate::from_key_update(m1, false);
    assert!(matches!(
        mu2.interpret_byte(),
        MatrixChange::KeyUpdate(i, false) if i.byte() == expect_ind
    ));
    assert_eq!(0b00001010, mu2.byte(), "{:b}", mu2.byte());
}

#[test]
fn from_byte_rejects_index_30_and_31() {
    assert!(MatrixUpdate::from_byte(0b0001_1111).is_none());
    assert!(MatrixUpdate::from_byte(0b1111_1111).is_none());
    assert!(MatrixUpdate::from_byte(30).is_none());
    assert!(MatrixUpdate::from_byte(30 | 0x20).is_none());
    assert_eq!(MatrixUpdate::from_byte(29).map(|u| u.byte()), Some(29));
    assert_eq!(MatrixUpdate::from_byte(29 | 0x20).map(|u| u.byte()), Some(29 | 0x20));
    assert_eq!(MatrixUpdate::from_byte(0xc0).map(|u| u.byte()), Some(0xc0));
}

#[test]
fn encoder_round_trip() {
    let cw = MatrixUpdate::from_rotary_change(true);
    let ccw = MatrixUpdate::from_rotary_change(false);
    assert_eq!(cw.byte(), 0xc0);
    assert_eq!(ccw.byte(), 0x40);
    assert!(matches!(cw.interpret_byte(), MatrixChange::EncoderUpdate(true)));
    assert!(matches!(ccw.interpret_byte(), MatrixChange::EncoderUpdate(false)));
}

#[test]
fn every_key_round_trips() {
    for row in 0..5u8 {
        for col in 0..6u8 {
            let idx = MatrixIndex::from_row_col(RowIndex::from_value(row), ColIndex::from_value(col));
            assert_eq!(idx.index(), (row * 6 + col) as usize);
            for state in [true, false] {
                let byte = MatrixUpdate::from_key_update(idx, state).byte();
                let back = MatrixUpdate::from_byte(byte).unwrap();
                match back.interpret_byte() {
                    MatrixChange::KeyUpdate(i, s) => {
                        assert_eq!(i.byte(), idx.byte());
                        assert_eq!(s, state);
                    }
                    MatrixChange::EncoderUpdate(_) => panic!("key decoded as encoder"),
                }
            }
        }
    }
}

#[test]
fn row_col_of_index() {
    assert_eq!(matrix_ind_to_row_col(0), (0, 0));
    assert_eq!(matrix_ind_to_row_col(10), (1, 4));
    assert_eq!(matrix_ind_to_row_col(29), (4, 5));
    assert_eq!(RowIndex::from_value(3).index(), 3);
}
