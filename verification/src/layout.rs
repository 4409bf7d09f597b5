//! The layout tables: what each key does, on each layer, when it goes down
//! and when it comes up. Keys are numbered `row * 6 + col` on each half;
//! slot 24 (row 4, column 0) has no key on either half.
use vstd::prelude::*;
use crate::keycodes as kc;
use crate::keymap::KeymapLayer;
use crate::mapping::{PressAction, ReleaseAction, on_base};

verus! {

/// What each key of the left half does when it goes down, by the layers in force.
pub open spec fn left_press_action(index: u8, perm: Option<KeymapLayer>, active: KeymapLayer) -> PressAction {
    match index {
        0 => left_row0_col0_press(perm, active),
        1 => left_row0_col1_press(perm, active),
        2 => left_row0_col2_press(perm, active),
        3 => left_row0_col3_press(perm, active),
        4 => left_row0_col4_press(perm, active),
        5 => left_row0_col5_press(perm, active),
        6 => left_row1_col0_press(perm, active),
        7 => left_row1_col1_press(perm, active),
        8 => left_row1_col2_press(perm, active),
        9 => left_row1_col3_press(perm, active),
        10 => left_row1_col4_press(perm, active),
        11 => left_row1_col5_press(perm, active),
        12 => left_row2_col0_press(perm, active),
        13 => left_row2_col1_press(perm, active),
        14 => left_row2_col2_press(perm, active),
        15 => left_row2_col3_press(perm, active),
        16 => left_row2_col4_press(perm, active),
        17 => left_row2_col5_press(perm, active),
        18 => left_row3_col0_press(perm, active),
        19 => left_row3_col1_press(perm, active),
        20 => left_row3_col2_press(perm, active),
        21 => left_row3_col3_press(perm, active),
        22 => left_row3_col4_press(perm, active),
        23 => left_row3_col5_press(perm, active),
        25 => left_row4_col1_press(perm, active),
        26 => left_row4_col2_press(perm, active),
        27 => left_row4_col3_press(perm, active),
        28 => left_row4_col4_press(perm, active),
        29 => left_row4_col5_press(perm, active),
        _ => PressAction::Nothing,
    }
}

pub open spec fn left_row0_col0_press(perm: Option<KeymapLayer>, active: KeymapLayer) -> PressAction {
    PressAction::Key(kc::TAB)
}

pub open spec fn left_row0_col1_press(perm: Option<KeymapLayer>, active: KeymapLayer) -> PressAction {
    if active == KeymapLayer::Raise {
        PressAction::Key(kc::F1)
    } else if active == KeymapLayer::Lower || active == KeymapLayer::LowerAnsi || active == KeymapLayer::LowerSeMac {
        PressAction::Temp(kc::N1, kc::LEFT_SHIFT, 0)
    } else if on_base(perm, active, KeymapLayer::DvorakAnsi) {
        PressAction::Key(kc::COMMA)
    } else if on_base(perm, active, KeymapLayer::QwertyGaming) {
        PressAction::Key(kc::N1)
    } else if on_base(perm, active, KeymapLayer::DvorakSe) || on_base(perm, active, KeymapLayer::DvorakSeMac) {
        PressAction::ShiftedQuote
    } else {
        PressAction::Nothing
    }
}

pub open spec fn left_row0_col2_press(perm: Option<KeymapLayer>, active: KeymapLayer) -> PressAction {
    if active == KeymapLayer::Settings {
        PressAction::Nothing
    } else if active == KeymapLayer::Num {
        PressAction::Nothing
    } else if active == KeymapLayer::Raise {
        PressAction::Key(kc::F2)
    } else if active == KeymapLayer::LowerAnsi {
        PressAction::Temp(kc::N2, kc::LEFT_SHIFT, 0)
    } else if active == KeymapLayer::Lower {
        PressAction::Temp(kc::N2, kc::RIGHT_ALT, 0)
    } else if active == KeymapLayer::LowerSeMac {
        PressAction::Temp(kc::N2, kc::LEFT_ALT, 0)
    } else if on_base(perm, active, KeymapLayer::DvorakAnsi) {
        PressAction::Key(kc::COMMA)
    } else if on_base(perm, active, KeymapLayer::DvorakSe) {
        PressAction::AngleOrComma(kc::NON_US_BACKSLASH)
    } else if on_base(perm, active, KeymapLayer::DvorakSeMac) {
        PressAction::AngleOrComma(kc::GRAVE)
    } else if on_base(perm, active, KeymapLayer::QwertyGaming) {
        PressAction::Key(kc::N2)
    } else {
        PressAction::Nothing
    }
}

pub open spec fn left_row0_col3_press(perm: Option<KeymapLayer>, active: KeymapLayer) -> PressAction {
    if active == KeymapLayer::Raise {
        PressAction::Key(kc::F3)
    } else if active == KeymapLayer::Lower || active == KeymapLayer::LowerAnsi || active == KeymapLayer::LowerSeMac {
        PressAction::Temp(kc::N3, kc::LEFT_SHIFT, 0)
    } else if on_base(perm, active, KeymapLayer::DvorakAnsi) {
        PressAction::Key(kc::DOT)
    } else if on_base(perm, active, KeymapLayer::DvorakSe) {
        PressAction::AngleOrDot(kc::NON_US_BACKSLASH)
    } else if on_base(perm, active, KeymapLayer::DvorakSeMac) {
        PressAction::AngleOrDot(kc::GRAVE)
    } else if on_base(perm, active, KeymapLayer::QwertyGaming) {
        PressAction::Key(kc::N3)
    } else {
        PressAction::Nothing
    }
}

pub open spec fn left_row0_col4_press(perm: Option<KeymapLayer>, active: KeymapLayer) -> PressAction {
    if active == KeymapLayer::Raise {
        PressAction::Key(kc::F4)
    } else if active == KeymapLayer::LowerAnsi {
        PressAction::Temp(kc::N4, kc::LEFT_SHIFT, 0)
    } else if active == KeymapLayer::Lower || active == KeymapLayer::LowerSeMac {
        PressAction::Temp(kc::N4, kc::RIGHT_ALT, 0)
    } else if on_base(perm, active, KeymapLayer::DvorakAnsi) {
        PressAction::Key(kc::P)
    } else if on_base(perm, active, KeymapLayer::DvorakSe) || on_base(perm, active, KeymapLayer::DvorakSeMac) {
        PressAction::Key(kc::P)
    } else if on_base(perm, active, KeymapLayer::QwertyGaming) {
        PressAction::Key(kc::N4)
    } else {
        PressAction::Nothing
    }
}

pub open spec fn left_row0_col5_press(perm: Option<KeymapLayer>, active: KeymapLayer) -> PressAction {
    if active == KeymapLayer::Raise {
        PressAction::Key(kc::F4)
    } else if active == KeymapLayer::LowerAnsi {
        PressAction::Temp(kc::N5, kc::LEFT_SHIFT, 0)
    } else if active == KeymapLayer::Lower || active == KeymapLayer::LowerSeMac {
        PressAction::Temp(kc::N5, kc::LEFT_SHIFT, 0)
    } else if on_base(perm, active, KeymapLayer::DvorakAnsi) {
        PressAction::Key(kc::Y)
    } else if on_base(perm, active, KeymapLayer::DvorakSe) || on_base(perm, active, KeymapLayer::DvorakSeMac) {
        PressAction::Key(kc::Y)
    } else if on_base(perm, active, KeymapLayer::QwertyGaming) {
        PressAction::Key(kc::N5)
    } else {
        PressAction::Nothing
    }
}

pub open spec fn left_row1_col0_press(perm: Option<KeymapLayer>, active: KeymapLayer) -> PressAction {
    PressAction::Key(kc::ESCAPE)
}

pub open spec fn left_row1_col1_press(perm: Option<KeymapLayer>, active: KeymapLayer) -> PressAction {
    if active == KeymapLayer::Num {
        PressAction::Key(kc::N1)
    } else if active == KeymapLayer::Raise {
        PressAction::Key(kc::LEFT_ARROW)
    } else if active == KeymapLayer::LowerAnsi {
        PressAction::Key(kc::KP_PLUS)
    } else if active == KeymapLayer::Lower || active == KeymapLayer::LowerSeMac {
        PressAction::Key(kc::DASH)
    } else if on_base(perm, active, KeymapLayer::DvorakAnsi) {
        PressAction::Key(kc::A)
    } else if on_base(perm, active, KeymapLayer::DvorakSe) || on_base(perm, active, KeymapLayer::DvorakSeMac) {
        PressAction::Key(kc::A)
    } else if on_base(perm, active, KeymapLayer::QwertyGaming) {
        PressAction::Key(kc::T)
    } else {
        PressAction::Nothing
    }
}

pub open spec fn left_row1_col2_press(perm: Option<KeymapLayer>, active: KeymapLayer) -> PressAction {
    if active == KeymapLayer::Num {
        PressAction::Key(kc::N2)
    } else if active == KeymapLayer::Raise {
        PressAction::Key(kc::RIGHT_ARROW)
    } else if active == KeymapLayer::LowerAnsi {
        PressAction::Key(kc::EQUALS)
    } else if active == KeymapLayer::Lower || active == KeymapLayer::LowerSeMac {
        PressAction::Temp(kc::N0, kc::LEFT_SHIFT, 0)
    } else if on_base(perm, active, KeymapLayer::DvorakAnsi) {
        PressAction::Key(kc::O)
    } else if on_base(perm, active, KeymapLayer::DvorakSe) || on_base(perm, active, KeymapLayer::DvorakSeMac) {
        PressAction::Key(kc::O)
    } else if on_base(perm, active, KeymapLayer::QwertyGaming) {
        PressAction::Key(kc::Q)
    } else {
        PressAction::Nothing
    }
}

pub open spec fn left_row1_col3_press(perm: Option<KeymapLayer>, active: KeymapLayer) -> PressAction {
    if active == KeymapLayer::Num {
        PressAction::Key(kc::N3)
    } else if active == KeymapLayer::Raise {
        PressAction::Key(kc::UP_ARROW)
    } else if active == KeymapLayer::LowerAnsi {
        PressAction::Key(kc::LEFT_BRACKET)
    } else if active == KeymapLayer::Lower || active == KeymapLayer::LowerSeMac {
        PressAction::Temp(kc::N8, kc::RIGHT_ALT, 0)
    } else if on_base(perm, active, KeymapLayer::DvorakAnsi) {
        PressAction::Key(kc::E)
    } else if on_base(perm, active, KeymapLayer::DvorakSe) || on_base(perm, active, KeymapLayer::DvorakSeMac) {
        PressAction::Key(kc::E)
    } else if on_base(perm, active, KeymapLayer::QwertyGaming) {
        PressAction::Key(kc::W)
    } else {
        PressAction::Nothing
    }
}

pub open spec fn left_row1_col4_press(perm: Option<KeymapLayer>, active: KeymapLayer) -> PressAction {
    if active == KeymapLayer::Num {
        PressAction::Key(kc::N4)
    } else if active == KeymapLayer::Raise {
        PressAction::Key(kc::DOWN_ARROW)
    } else if active == KeymapLayer::LowerAnsi {
        PressAction::Key(kc::RIGHT_BRACKET)
    } else if active == KeymapLayer::Lower || active == KeymapLayer::LowerSeMac {
        PressAction::Temp(kc::N9, kc::RIGHT_ALT, 0)
    } else if on_base(perm, active, KeymapLayer::DvorakAnsi) {
        PressAction::Key(kc::U)
    } else if on_base(perm, active, KeymapLayer::DvorakSe) || on_base(perm, active, KeymapLayer::DvorakSeMac) {
        PressAction::Key(kc::U)
    } else if on_base(perm, active, KeymapLayer::QwertyGaming) {
        PressAction::Key(kc::E)
    } else {
        PressAction::Nothing
    }
}

pub open spec fn left_row1_col5_press(perm: Option<KeymapLayer>, active: KeymapLayer) -> PressAction {
    if active == KeymapLayer::Num {
        PressAction::Key(kc::N5)
    } else if active == KeymapLayer::Raise {
        PressAction::Key(kc::F11)
    } else if active == KeymapLayer::LowerAnsi {
        PressAction::Temp(kc::SLASH, kc::LEFT_SHIFT, 0)
    } else if active == KeymapLayer::Lower || active == KeymapLayer::LowerSeMac {
        PressAction::Temp(kc::DASH, kc::LEFT_SHIFT, 0)
    } else if on_base(perm, active, KeymapLayer::DvorakAnsi) {
        PressAction::Key(kc::I)
    } else if on_base(perm, active, KeymapLayer::DvorakSe) || on_base(perm, active, KeymapLayer::DvorakSeMac) {
        PressAction::Key(kc::I)
    } else if on_base(perm, active, KeymapLayer::QwertyGaming) {
        PressAction::Key(kc::R)
    } else {
        PressAction::Nothing
    }
}

pub open spec fn left_row2_col0_press(perm: Option<KeymapLayer>, active: KeymapLayer) -> PressAction {
    PressAction::Modifier(kc::LEFT_SHIFT)
}

pub open spec fn left_row2_col1_press(perm: Option<KeymapLayer>, active: KeymapLayer) -> PressAction {
    if on_base(perm, active, KeymapLayer::DvorakAnsi) {
        PressAction::Key(kc::SEMICOLON)
    } else if on_base(perm, active, KeymapLayer::DvorakSe) || on_base(perm, active, KeymapLayer::DvorakSeMac) {
        PressAction::ColonOrSemicolon
    } else if on_base(perm, active, KeymapLayer::QwertyGaming) {
        PressAction::Key(kc::Y)
    } else {
        PressAction::Nothing
    }
}

pub open spec fn left_row2_col2_press(perm: Option<KeymapLayer>, active: KeymapLayer) -> PressAction {
    if active == KeymapLayer::LowerAnsi || active == KeymapLayer::Lower || active == KeymapLayer::LowerSeMac {
        PressAction::Temp(kc::C, kc::LEFT_CONTROL, 0)
    } else if on_base(perm, active, KeymapLayer::DvorakAnsi) {
        PressAction::Key(kc::Q)
    } else if on_base(perm, active, KeymapLayer::DvorakSe) || on_base(perm, active, KeymapLayer::DvorakSeMac) {
        PressAction::Key(kc::Q)
    } else if on_base(perm, active, KeymapLayer::QwertyGaming) {
        PressAction::Key(kc::A)
    } else {
        PressAction::Nothing
    }
}

pub open spec fn left_row2_col3_press(perm: Option<KeymapLayer>, active: KeymapLayer) -> PressAction {
    if active == KeymapLayer::LowerAnsi || active == KeymapLayer::Lower || active == KeymapLayer::LowerSeMac {
        PressAction::Temp(kc::X, kc::LEFT_CONTROL, 0)
    } else if on_base(perm, active, KeymapLayer::DvorakAnsi) {
        PressAction::Key(kc::J)
    } else if on_base(perm, active, KeymapLayer::DvorakSe) || on_base(perm, active, KeymapLayer::DvorakSeMac) {
        PressAction::Key(kc::J)
    } else if on_base(perm, active, KeymapLayer::QwertyGaming) {
        PressAction::Key(kc::S)
    } else {
        PressAction::Nothing
    }
}

pub open spec fn left_row2_col4_press(perm: Option<KeymapLayer>, active: KeymapLayer) -> PressAction {
    if active == KeymapLayer::LowerAnsi || active == KeymapLayer::Lower || active == KeymapLayer::LowerSeMac {
        PressAction::Temp(kc::V, kc::LEFT_CONTROL, 0)
    } else if on_base(perm, active, KeymapLayer::DvorakAnsi) {
        PressAction::Key(kc::K)
    } else if on_base(perm, active, KeymapLayer::DvorakSe) || on_base(perm, active, KeymapLayer::DvorakSeMac) {
        PressAction::Key(kc::K)
    } else if on_base(perm, active, KeymapLayer::QwertyGaming) {
        PressAction::Key(kc::D)
    } else {
        PressAction::Nothing
    }
}

pub open spec fn left_row2_col5_press(perm: Option<KeymapLayer>, active: KeymapLayer) -> PressAction {
    if active == KeymapLayer::LowerAnsi {
        PressAction::Temp(kc::GRAVE, kc::LEFT_SHIFT, 0)
    } else if active == KeymapLayer::Lower {
        PressAction::TildeTwice
    } else if active == KeymapLayer::LowerSeMac {
        PressAction::TildeSpace
    } else if on_base(perm, active, KeymapLayer::DvorakAnsi) {
        PressAction::Key(kc::X)
    } else if on_base(perm, active, KeymapLayer::DvorakSe) || on_base(perm, active, KeymapLayer::DvorakSeMac) {
        PressAction::Key(kc::X)
    } else if on_base(perm, active, KeymapLayer::QwertyGaming) {
        PressAction::Key(kc::F)
    } else {
        PressAction::Nothing
    }
}

pub open spec fn left_row3_col0_press(perm: Option<KeymapLayer>, active: KeymapLayer) -> PressAction {
    PressAction::Modifier(kc::LEFT_CONTROL)
}

pub open spec fn left_row3_col1_press(perm: Option<KeymapLayer>, active: KeymapLayer) -> PressAction {
    if on_base(perm, active, KeymapLayer::DvorakAnsi) {
        PressAction::Modifier(kc::LEFT_GUI)
    } else if on_base(perm, active, KeymapLayer::DvorakSe) || on_base(perm, active, KeymapLayer::DvorakSeMac) {
        PressAction::Modifier(kc::LEFT_GUI)
    } else if on_base(perm, active, KeymapLayer::QwertyGaming) {
        PressAction::Key(kc::Z)
    } else {
        PressAction::Nothing
    }
}

pub open spec fn left_row3_col2_press(perm: Option<KeymapLayer>, active: KeymapLayer) -> PressAction {
    if on_base(perm, active, KeymapLayer::DvorakAnsi) {
        PressAction::Modifier(kc::LEFT_ALT)
    } else if on_base(perm, active, KeymapLayer::DvorakSe) || on_base(perm, active, KeymapLayer::DvorakSeMac) {
        PressAction::Modifier(kc::LEFT_ALT)
    } else if on_base(perm, active, KeymapLayer::QwertyGaming) {
        PressAction::Key(kc::X)
    } else {
        PressAction::Nothing
    }
}

pub open spec fn left_row3_col3_press(perm: Option<KeymapLayer>, active: KeymapLayer) -> PressAction {
    if on_base(perm, active, KeymapLayer::QwertyGaming) {
        PressAction::Key(kc::C)
    } else if on_base(perm, active, KeymapLayer::DvorakSe) || on_base(perm, active, KeymapLayer::DvorakSeMac) {
        PressAction::Nothing
    } else if on_base(perm, active, KeymapLayer::DvorakAnsi) {
        PressAction::Nothing
    } else {
        PressAction::Nothing
    }
}

pub open spec fn left_row3_col4_press(perm: Option<KeymapLayer>, active: KeymapLayer) -> PressAction {
    if on_base(perm, active, KeymapLayer::DvorakAnsi) {
        PressAction::TempLayer(KeymapLayer::LowerAnsi)
    } else if on_base(perm, active, KeymapLayer::DvorakSe) {
        PressAction::TempLayer(KeymapLayer::Lower)
    } else if on_base(perm, active, KeymapLayer::DvorakSeMac) {
        PressAction::TempLayer(KeymapLayer::LowerSeMac)
    } else if on_base(perm, active, KeymapLayer::QwertyGaming) {
        PressAction::Key(kc::V)
    } else {
        PressAction::Nothing
    }
}

pub open spec fn left_row3_col5_press(perm: Option<KeymapLayer>, active: KeymapLayer) -> PressAction {
    if on_base(perm, active, KeymapLayer::DvorakAnsi) {
        PressAction::Key(kc::SPACE)
    } else if on_base(perm, active, KeymapLayer::DvorakSe) || on_base(perm, active, KeymapLayer::DvorakSeMac) {
        PressAction::Key(kc::SPACE)
    } else if on_base(perm, active, KeymapLayer::QwertyGaming) {
        PressAction::Key(kc::B)
    } else {
        PressAction::Nothing
    }
}

pub open spec fn left_row4_col1_press(perm: Option<KeymapLayer>, active: KeymapLayer) -> PressAction {
    PressAction::Reboot
}

pub open spec fn left_row4_col2_press(perm: Option<KeymapLayer>, active: KeymapLayer) -> PressAction {
    if on_base(perm, active, KeymapLayer::QwertyGaming) {
        PressAction::Modifier(kc::LEFT_GUI)
    } else if on_base(perm, active, KeymapLayer::DvorakSe) || on_base(perm, active, KeymapLayer::DvorakSeMac) {
        PressAction::Nothing
    } else if on_base(perm, active, KeymapLayer::DvorakAnsi) {
        PressAction::Nothing
    } else {
        PressAction::Nothing
    }
}

pub open spec fn left_row4_col3_press(perm: Option<KeymapLayer>, active: KeymapLayer) -> PressAction {
    PressAction::Nothing
}

pub open spec fn left_row4_col4_press(perm: Option<KeymapLayer>, active: KeymapLayer) -> PressAction {
    if on_base(perm, active, KeymapLayer::QwertyGaming) {
        PressAction::Key(kc::SPACE)
    } else if on_base(perm, active, KeymapLayer::DvorakSe) || on_base(perm, active, KeymapLayer::DvorakSeMac) {
        PressAction::Temp(kc::SLASH, kc::LEFT_SHIFT, 0)
    } else if on_base(perm, active, KeymapLayer::DvorakAnsi) {
        PressAction::Nothing
    } else {
        PressAction::Nothing
    }
}

pub open spec fn left_row4_col5_press(perm: Option<KeymapLayer>, active: KeymapLayer) -> PressAction {
    PressAction::Nothing
}

/// What each key of the left half does when it comes up, by the layers in force when it went down.
pub open spec fn left_release_action(index: u8, perm: Option<KeymapLayer>, active: KeymapLayer) -> ReleaseAction {
    match index {
        0 => left_row0_col0_release(perm, active),
        1 => left_row0_col1_release(perm, active),
        2 => left_row0_col2_release(perm, active),
        3 => left_row0_col3_release(perm, active),
        4 => left_row0_col4_release(perm, active),
        5 => left_row0_col5_release(perm, active),
        6 => left_row1_col0_release(perm, active),
        7 => left_row1_col1_release(perm, active),
        8 => left_row1_col2_release(perm, active),
        9 => left_row1_col3_release(perm, active),
        10 => left_row1_col4_release(perm, active),
        11 => left_row1_col5_release(perm, active),
        12 => left_row2_col0_release(perm, active),
        13 => left_row2_col1_release(perm, active),
        14 => left_row2_col2_release(perm, active),
        15 => left_row2_col3_release(perm, active),
        16 => left_row2_col4_release(perm, active),
        17 => left_row2_col5_release(perm, active),
        18 => left_row3_col0_release(perm, active),
        19 => left_row3_col1_release(perm, active),
        20 => left_row3_col2_release(perm, active),
        21 => left_row3_col3_release(perm, active),
        22 => left_row3_col4_release(perm, active),
        23 => left_row3_col5_release(perm, active),
        25 => left_row4_col1_release(perm, active),
        26 => left_row4_col2_release(perm, active),
        27 => left_row4_col3_release(perm, active),
        28 => left_row4_col4_release(perm, active),
        29 => left_row4_col5_release(perm, active),
        _ => ReleaseAction::Nothing,
    }
}

pub open spec fn left_row0_col0_release(perm: Option<KeymapLayer>, active: KeymapLayer) -> ReleaseAction {
    ReleaseAction::Key(kc::TAB)
}

pub open spec fn left_row0_col1_release(perm: Option<KeymapLayer>, active: KeymapLayer) -> ReleaseAction {
    if active == KeymapLayer::Raise {
        ReleaseAction::Key(kc::F1)
    } else if active == KeymapLayer::Lower || active == KeymapLayer::LowerAnsi || active == KeymapLayer::LowerSeMac {
        ReleaseAction::Restore
    } else if on_base(perm, active, KeymapLayer::DvorakAnsi) {
        ReleaseAction::Key(kc::COMMA)
    } else if on_base(perm, active, KeymapLayer::DvorakSe) || on_base(perm, active, KeymapLayer::DvorakSeMac) {
        ReleaseAction::Quote
    } else if on_base(perm, active, KeymapLayer::QwertyGaming) {
        ReleaseAction::Key(kc::N1)
    } else {
        ReleaseAction::Nothing
    }
}

pub open spec fn left_row0_col2_release(perm: Option<KeymapLayer>, active: KeymapLayer) -> ReleaseAction {
    if active == KeymapLayer::Raise {
        ReleaseAction::Key(kc::F2)
    } else if active == KeymapLayer::LowerAnsi || active == KeymapLayer::Lower || active == KeymapLayer::LowerSeMac {
        ReleaseAction::Restore
    } else if on_base(perm, active, KeymapLayer::DvorakAnsi) {
        ReleaseAction::Key(kc::COMMA)
    } else if on_base(perm, active, KeymapLayer::DvorakSe) {
        ReleaseAction::AngleOrComma
    } else if on_base(perm, active, KeymapLayer::DvorakSeMac) {
        ReleaseAction::AngleOrComma
    } else if on_base(perm, active, KeymapLayer::QwertyGaming) {
        ReleaseAction::Key(kc::N2)
    } else {
        ReleaseAction::Nothing
    }
}

pub open spec fn left_row0_col3_release(perm: Option<KeymapLayer>, active: KeymapLayer) -> ReleaseAction {
    if active == KeymapLayer::Raise {
        ReleaseAction::Key(kc::F3)
    } else if active == KeymapLayer::Lower || active == KeymapLayer::LowerAnsi || active == KeymapLayer::LowerSeMac {
        ReleaseAction::Restore
    } else if on_base(perm, active, KeymapLayer::DvorakAnsi) {
        ReleaseAction::Key(kc::DOT)
    } else if on_base(perm, active, KeymapLayer::DvorakSe) {
        ReleaseAction::AngleOrDot(kc::NON_US_BACKSLASH)
    } else if on_base(perm, active, KeymapLayer::DvorakSeMac) {
        ReleaseAction::AngleOrDot(kc::GRAVE)
    } else if on_base(perm, active, KeymapLayer::QwertyGaming) {
        ReleaseAction::Key(kc::N3)
    } else {
        ReleaseAction::Nothing
    }
}

pub open spec fn left_row0_col4_release(perm: Option<KeymapLayer>, active: KeymapLayer) -> ReleaseAction {
    if active == KeymapLayer::Raise {
        ReleaseAction::Key(kc::F4)
    } else if active == KeymapLayer::LowerAnsi {
        ReleaseAction::Restore
    } else if active == KeymapLayer::Lower || active == KeymapLayer::LowerSeMac {
        ReleaseAction::Restore
    } else if on_base(perm, active, KeymapLayer::DvorakAnsi) {
        ReleaseAction::Key(kc::P)
    } else if on_base(perm, active, KeymapLayer::DvorakSe) || on_base(perm, active, KeymapLayer::DvorakSeMac) {
        ReleaseAction::Key(kc::P)
    } else if on_base(perm, active, KeymapLayer::QwertyGaming) {
        ReleaseAction::Key(kc::N4)
    } else {
        ReleaseAction::Nothing
    }
}

pub open spec fn left_row0_col5_release(perm: Option<KeymapLayer>, active: KeymapLayer) -> ReleaseAction {
    if active == KeymapLayer::Raise {
        ReleaseAction::Key(kc::F4)
    } else if active == KeymapLayer::LowerAnsi {
        ReleaseAction::Restore
    } else if active == KeymapLayer::Lower || active == KeymapLayer::LowerSeMac {
        ReleaseAction::Restore
    } else if on_base(perm, active, KeymapLayer::DvorakAnsi) {
        ReleaseAction::Key(kc::Y)
    } else if on_base(perm, active, KeymapLayer::DvorakSe) || on_base(perm, active, KeymapLayer::DvorakSeMac) {
        ReleaseAction::Key(kc::Y)
    } else if on_base(perm, active, KeymapLayer::QwertyGaming) {
        ReleaseAction::Key(kc::N5)
    } else {
        ReleaseAction::Nothing
    }
}

pub open spec fn left_row1_col0_release(perm: Option<KeymapLayer>, active: KeymapLayer) -> ReleaseAction {
    ReleaseAction::Key(kc::ESCAPE)
}

pub open spec fn left_row1_col1_release(perm: Option<KeymapLayer>, active: KeymapLayer) -> ReleaseAction {
    if active == KeymapLayer::Num {
        ReleaseAction::Key(kc::N1)
    } else if active == KeymapLayer::Raise {
        ReleaseAction::Key(kc::LEFT_ARROW)
    } else if active == KeymapLayer::LowerAnsi {
        ReleaseAction::Key(kc::KP_PLUS)
    } else if active == KeymapLayer::Lower || active == KeymapLayer::LowerSeMac {
        ReleaseAction::Key(kc::DASH)
    } else if on_base(perm, active, KeymapLayer::DvorakAnsi) {
        ReleaseAction::Key(kc::A)
    } else if on_base(perm, active, KeymapLayer::DvorakSe) || on_base(perm, active, KeymapLayer::DvorakSeMac) {
        ReleaseAction::Key(kc::A)
    } else if on_base(perm, active, KeymapLayer::QwertyGaming) {
        ReleaseAction::Key(kc::T)
    } else {
        ReleaseAction::Nothing
    }
}

pub open spec fn left_row1_col2_release(perm: Option<KeymapLayer>, active: KeymapLayer) -> ReleaseAction {
    if active == KeymapLayer::Num {
        ReleaseAction::Key(kc::N2)
    } else if active == KeymapLayer::Raise {
        ReleaseAction::Key(kc::RIGHT_ARROW)
    } else if active == KeymapLayer::LowerAnsi {
        ReleaseAction::Key(kc::EQUALS)
    } else if active == KeymapLayer::Lower || active == KeymapLayer::LowerSeMac {
        ReleaseAction::Restore
    } else if on_base(perm, active, KeymapLayer::DvorakAnsi) {
        ReleaseAction::Key(kc::O)
    } else if on_base(perm, active, KeymapLayer::DvorakSe) || on_base(perm, active, KeymapLayer::DvorakSeMac) {
        ReleaseAction::Key(kc::O)
    } else if on_base(perm, active, KeymapLayer::QwertyGaming) {
        ReleaseAction::Key(kc::Q)
    } else {
        ReleaseAction::Nothing
    }
}

pub open spec fn left_row1_col3_release(perm: Option<KeymapLayer>, active: KeymapLayer) -> ReleaseAction {
    if active == KeymapLayer::Num {
        ReleaseAction::Key(kc::N3)
    } else if active == KeymapLayer::Raise {
        ReleaseAction::Key(kc::UP_ARROW)
    } else if active == KeymapLayer::LowerAnsi {
        ReleaseAction::Key(kc::LEFT_BRACKET)
    } else if active == KeymapLayer::Lower || active == KeymapLayer::LowerSeMac {
        ReleaseAction::Restore
    } else if on_base(perm, active, KeymapLayer::DvorakAnsi) {
        ReleaseAction::Key(kc::E)
    } else if on_base(perm, active, KeymapLayer::DvorakSe) || on_base(perm, active, KeymapLayer::DvorakSeMac) {
        ReleaseAction::Key(kc::E)
    } else if on_base(perm, active, KeymapLayer::QwertyGaming) {
        ReleaseAction::Key(kc::W)
    } else {
        ReleaseAction::Nothing
    }
}

pub open spec fn left_row1_col4_release(perm: Option<KeymapLayer>, active: KeymapLayer) -> ReleaseAction {
    if active == KeymapLayer::Num {
        ReleaseAction::Key(kc::N4)
    } else if active == KeymapLayer::Raise {
        ReleaseAction::Key(kc::DOWN_ARROW)
    } else if active == KeymapLayer::LowerAnsi {
        ReleaseAction::Key(kc::RIGHT_BRACKET)
    } else if active == KeymapLayer::Lower || active == KeymapLayer::LowerSeMac {
        ReleaseAction::Restore
    } else if on_base(perm, active, KeymapLayer::DvorakAnsi) {
        ReleaseAction::Key(kc::U)
    } else if on_base(perm, active, KeymapLayer::DvorakSe) || on_base(perm, active, KeymapLayer::DvorakSeMac) {
        ReleaseAction::Key(kc::U)
    } else if on_base(perm, active, KeymapLayer::QwertyGaming) {
        ReleaseAction::Key(kc::E)
    } else {
        ReleaseAction::Nothing
    }
}

pub open spec fn left_row1_col5_release(perm: Option<KeymapLayer>, active: KeymapLayer) -> ReleaseAction {
    if active == KeymapLayer::Num {
        ReleaseAction::Key(kc::N5)
    } else if active == KeymapLayer::Raise {
        ReleaseAction::Key(kc::F11)
    } else if active == KeymapLayer::LowerAnsi {
        ReleaseAction::Restore
    } else if active == KeymapLayer::Lower || active == KeymapLayer::LowerSeMac {
        ReleaseAction::Restore
    } else if on_base(perm, active, KeymapLayer::DvorakAnsi) {
        ReleaseAction::Key(kc::I)
    } else if on_base(perm, active, KeymapLayer::DvorakSe) || on_base(perm, active, KeymapLayer::DvorakSeMac) {
        ReleaseAction::Key(kc::I)
    } else if on_base(perm, active, KeymapLayer::QwertyGaming) {
        ReleaseAction::Key(kc::R)
    } else {
        ReleaseAction::Nothing
    }
}

pub open spec fn left_row2_col0_release(perm: Option<KeymapLayer>, active: KeymapLayer) -> ReleaseAction {
    ReleaseAction::Modifier(kc::LEFT_SHIFT)
}

pub open spec fn left_row2_col1_release(perm: Option<KeymapLayer>, active: KeymapLayer) -> ReleaseAction {
    if on_base(perm, active, KeymapLayer::DvorakAnsi) {
        ReleaseAction::Key(kc::SEMICOLON)
    } else if on_base(perm, active, KeymapLayer::DvorakSe) || on_base(perm, active, KeymapLayer::DvorakSeMac) {
        ReleaseAction::ColonOrSemicolon
    } else if on_base(perm, active, KeymapLayer::QwertyGaming) {
        ReleaseAction::Key(kc::Y)
    } else {
        ReleaseAction::Nothing
    }
}

pub open spec fn left_row2_col2_release(perm: Option<KeymapLayer>, active: KeymapLayer) -> ReleaseAction {
    if active == KeymapLayer::LowerAnsi || active == KeymapLayer::Lower || active == KeymapLayer::LowerSeMac {
        ReleaseAction::Restore
    } else if on_base(perm, active, KeymapLayer::DvorakAnsi) {
        ReleaseAction::Key(kc::Q)
    } else if on_base(perm, active, KeymapLayer::DvorakSe) || on_base(perm, active, KeymapLayer::DvorakSeMac) {
        ReleaseAction::Key(kc::Q)
    } else if on_base(perm, active, KeymapLayer::QwertyGaming) {
        ReleaseAction::Key(kc::A)
    } else {
        ReleaseAction::Nothing
    }
}

pub open spec fn left_row2_col3_release(perm: Option<KeymapLayer>, active: KeymapLayer) -> ReleaseAction {
    if active == KeymapLayer::LowerAnsi || active == KeymapLayer::Lower || active == KeymapLayer::LowerSeMac {
        ReleaseAction::Restore
    } else if on_base(perm, active, KeymapLayer::DvorakAnsi) {
        ReleaseAction::Key(kc::J)
    } else if on_base(perm, active, KeymapLayer::DvorakSe) || on_base(perm, active, KeymapLayer::DvorakSeMac) {
        ReleaseAction::Key(kc::J)
    } else if on_base(perm, active, KeymapLayer::QwertyGaming) {
        ReleaseAction::Key(kc::S)
    } else {
        ReleaseAction::Nothing
    }
}

pub open spec fn left_row2_col4_release(perm: Option<KeymapLayer>, active: KeymapLayer) -> ReleaseAction {
    if active == KeymapLayer::LowerAnsi || active == KeymapLayer::Lower || active == KeymapLayer::LowerSeMac {
        ReleaseAction::Restore
    } else if on_base(perm, active, KeymapLayer::DvorakAnsi) {
        ReleaseAction::Key(kc::K)
    } else if on_base(perm, active, KeymapLayer::DvorakSe) || on_base(perm, active, KeymapLayer::DvorakSeMac) {
        ReleaseAction::Key(kc::K)
    } else if on_base(perm, active, KeymapLayer::QwertyGaming) {
        ReleaseAction::Key(kc::D)
    } else {
        ReleaseAction::Nothing
    }
}

pub open spec fn left_row2_col5_release(perm: Option<KeymapLayer>, active: KeymapLayer) -> ReleaseAction {
    if active == KeymapLayer::LowerAnsi || active == KeymapLayer::Lower || active == KeymapLayer::LowerSeMac {
        ReleaseAction::Restore
    } else if on_base(perm, active, KeymapLayer::DvorakAnsi) {
        ReleaseAction::Key(kc::X)
    } else if on_base(perm, active, KeymapLayer::DvorakSe) || on_base(perm, active, KeymapLayer::DvorakSeMac) {
        ReleaseAction::Key(kc::X)
    } else if on_base(perm, active, KeymapLayer::QwertyGaming) {
        ReleaseAction::Key(kc::F)
    } else {
        ReleaseAction::Nothing
    }
}

pub open spec fn left_row3_col0_release(perm: Option<KeymapLayer>, active: KeymapLayer) -> ReleaseAction {
    ReleaseAction::Modifier(kc::LEFT_CONTROL)
}

pub open spec fn left_row3_col1_release(perm: Option<KeymapLayer>, active: KeymapLayer) -> ReleaseAction {
    if on_base(perm, active, KeymapLayer::DvorakAnsi) {
        ReleaseAction::Modifier(kc::LEFT_GUI)
    } else if on_base(perm, active, KeymapLayer::DvorakSe) || on_base(perm, active, KeymapLayer::DvorakSeMac) {
        ReleaseAction::Modifier(kc::LEFT_GUI)
    } else if on_base(perm, active, KeymapLayer::QwertyGaming) {
        ReleaseAction::Key(kc::Z)
    } else {
        ReleaseAction::Nothing
    }
}

pub open spec fn left_row3_col2_release(perm: Option<KeymapLayer>, active: KeymapLayer) -> ReleaseAction {
    if on_base(perm, active, KeymapLayer::DvorakAnsi) {
        ReleaseAction::Modifier(kc::LEFT_ALT)
    } else if on_base(perm, active, KeymapLayer::DvorakSe) || on_base(perm, active, KeymapLayer::DvorakSeMac) {
        ReleaseAction::Modifier(kc::LEFT_ALT)
    } else if on_base(perm, active, KeymapLayer::QwertyGaming) {
        ReleaseAction::Key(kc::X)
    } else {
        ReleaseAction::Nothing
    }
}

pub open spec fn left_row3_col3_release(perm: Option<KeymapLayer>, active: KeymapLayer) -> ReleaseAction {
    if on_base(perm, active, KeymapLayer::QwertyGaming) {
        ReleaseAction::Key(kc::C)
    } else if on_base(perm, active, KeymapLayer::DvorakSe) || on_base(perm, active, KeymapLayer::DvorakSeMac) {
        ReleaseAction::Nothing
    } else if on_base(perm, active, KeymapLayer::DvorakAnsi) {
        ReleaseAction::Nothing
    } else {
        ReleaseAction::Nothing
    }
}

pub open spec fn left_row3_col4_release(perm: Option<KeymapLayer>, active: KeymapLayer) -> ReleaseAction {
    if active == KeymapLayer::LowerAnsi {
        ReleaseAction::TempLayer(KeymapLayer::LowerAnsi)
    } else if active == KeymapLayer::Lower {
        ReleaseAction::TempLayer(KeymapLayer::Lower)
    } else if active == KeymapLayer::LowerSeMac {
        ReleaseAction::TempLayer(KeymapLayer::LowerSeMac)
    } else if on_base(perm, active, KeymapLayer::QwertyGaming) {
        ReleaseAction::Key(kc::V)
    } else if on_base(perm, active, KeymapLayer::DvorakAnsi) {
        ReleaseAction::Nothing
    } else if on_base(perm, active, KeymapLayer::DvorakSe) {
        ReleaseAction::Nothing
    } else {
        ReleaseAction::Nothing
    }
}

pub open spec fn left_row3_col5_release(perm: Option<KeymapLayer>, active: KeymapLayer) -> ReleaseAction {
    if on_base(perm, active, KeymapLayer::DvorakAnsi) {
        ReleaseAction::Key(kc::SPACE)
    } else if on_base(perm, active, KeymapLayer::DvorakSe) || on_base(perm, active, KeymapLayer::DvorakSeMac) {
        ReleaseAction::Key(kc::SPACE)
    } else if on_base(perm, active, KeymapLayer::QwertyGaming) {
        ReleaseAction::Key(kc::B)
    } else {
        ReleaseAction::Nothing
    }
}

pub open spec fn left_row4_col1_release(perm: Option<KeymapLayer>, active: KeymapLayer) -> ReleaseAction {
    ReleaseAction::Nothing
}

pub open spec fn left_row4_col2_release(perm: Option<KeymapLayer>, active: KeymapLayer) -> ReleaseAction {
    if on_base(perm, active, KeymapLayer::QwertyGaming) {
        ReleaseAction::Modifier(kc::LEFT_GUI)
    } else if on_base(perm, active, KeymapLayer::DvorakSe) || on_base(perm, active, KeymapLayer::DvorakSeMac) {
        ReleaseAction::Nothing
    } else if on_base(perm, active, KeymapLayer::DvorakAnsi) {
        ReleaseAction::Nothing
    } else {
        ReleaseAction::Nothing
    }
}

pub open spec fn left_row4_col3_release(perm: Option<KeymapLayer>, active: KeymapLayer) -> ReleaseAction {
    ReleaseAction::Nothing
}

pub open spec fn left_row4_col4_release(perm: Option<KeymapLayer>, active: KeymapLayer) -> ReleaseAction {
    if on_base(perm, active, KeymapLayer::QwertyGaming) {
        ReleaseAction::Key(kc::SPACE)
    } else if on_base(perm, active, KeymapLayer::DvorakSe) || on_base(perm, active, KeymapLayer::DvorakSeMac) {
        ReleaseAction::Restore
    } else if on_base(perm, active, KeymapLayer::DvorakAnsi) {
        ReleaseAction::Nothing
    } else {
        ReleaseAction::Nothing
    }
}

pub open spec fn left_row4_col5_release(perm: Option<KeymapLayer>, active: KeymapLayer) -> ReleaseAction {
    ReleaseAction::Nothing
}

/// What each key of the right half does when it goes down, by the layers in force.
pub open spec fn right_press_action(index: u8, perm: Option<KeymapLayer>, active: KeymapLayer) -> PressAction {
    match index {
        0 => right_row0_col0_press(perm, active),
        1 => right_row0_col1_press(perm, active),
        2 => right_row0_col2_press(perm, active),
        3 => right_row0_col3_press(perm, active),
        4 => right_row0_col4_press(perm, active),
        5 => right_row0_col5_press(perm, active),
        6 => right_row1_col0_press(perm, active),
        7 => right_row1_col1_press(perm, active),
        8 => right_row1_col2_press(perm, active),
        9 => right_row1_col3_press(perm, active),
        10 => right_row1_col4_press(perm, active),
        11 => right_row1_col5_press(perm, active),
        12 => right_row2_col0_press(perm, active),
        13 => right_row2_col1_press(perm, active),
        14 => right_row2_col2_press(perm, active),
        15 => right_row2_col3_press(perm, active),
        16 => right_row2_col4_press(perm, active),
        17 => right_row2_col5_press(perm, active),
        18 => right_row3_col0_press(perm, active),
        19 => right_row3_col1_press(perm, active),
        20 => right_row3_col2_press(perm, active),
        21 => right_row3_col3_press(perm, active),
        22 => right_row3_col4_press(perm, active),
        23 => right_row3_col5_press(perm, active),
        25 => right_row4_col1_press(perm, active),
        26 => right_row4_col2_press(perm, active),
        27 => right_row4_col3_press(perm, active),
        28 => right_row4_col4_press(perm, active),
        29 => right_row4_col5_press(perm, active),
        _ => PressAction::Nothing,
    }
}

pub open spec fn right_row0_col0_press(perm: Option<KeymapLayer>, active: KeymapLayer) -> PressAction {
    PressAction::Key(kc::BACKSPACE)
}

pub open spec fn right_row0_col1_press(perm: Option<KeymapLayer>, active: KeymapLayer) -> PressAction {
    if active == KeymapLayer::Raise {
        PressAction::Key(kc::F10)
    } else if active == KeymapLayer::LowerAnsi || active == KeymapLayer::Lower || active == KeymapLayer::LowerSeMac {
        PressAction::Temp(kc::BACKSLASH, kc::LEFT_SHIFT, 0)
    } else if on_base(perm, active, KeymapLayer::DvorakAnsi) || on_base(perm, active, KeymapLayer::DvorakSe) || on_base(perm, active, KeymapLayer::DvorakSeMac) {
        PressAction::Key(kc::L)
    } else if on_base(perm, active, KeymapLayer::QwertyGaming) {
        PressAction::Key(kc::N0)
    } else {
        PressAction::Nothing
    }
}

pub open spec fn right_row0_col2_press(perm: Option<KeymapLayer>, active: KeymapLayer) -> PressAction {
    if active == KeymapLayer::Raise {
        PressAction::Key(kc::F9)
    } else if active == KeymapLayer::LowerAnsi {
        PressAction::Temp(kc::N8, kc::LEFT_SHIFT, 0)
    } else if active == KeymapLayer::Lower || active == KeymapLayer::LowerSeMac {
        PressAction::Temp(kc::N9, kc::LEFT_SHIFT, 0)
    } else if on_base(perm, active, KeymapLayer::DvorakAnsi) {
        PressAction::Key(kc::R)
    } else if on_base(perm, active, KeymapLayer::DvorakSe) || on_base(perm, active, KeymapLayer::DvorakSeMac) {
        PressAction::Key(kc::R)
    } else if on_base(perm, active, KeymapLayer::QwertyGaming) {
        PressAction::Key(kc::N9)
    } else {
        PressAction::Nothing
    }
}

pub open spec fn right_row0_col3_press(perm: Option<KeymapLayer>, active: KeymapLayer) -> PressAction {
    if active == KeymapLayer::Raise {
        PressAction::Key(kc::F8)
    } else if active == KeymapLayer::LowerAnsi {
        PressAction::Temp(kc::N9, kc::LEFT_SHIFT, 0)
    } else if active == KeymapLayer::Lower || active == KeymapLayer::LowerSeMac {
        PressAction::Temp(kc::N8, kc::LEFT_SHIFT, 0)
    } else if on_base(perm, active, KeymapLayer::DvorakAnsi) {
        PressAction::Key(kc::C)
    } else if on_base(perm, active, KeymapLayer::DvorakSe) || on_base(perm, active, KeymapLayer::DvorakSeMac) {
        PressAction::Key(kc::C)
    } else if on_base(perm, active, KeymapLayer::QwertyGaming) {
        PressAction::Key(kc::N8)
    } else {
        PressAction::Nothing
    }
}

pub open spec fn right_row0_col4_press(perm: Option<KeymapLayer>, active: KeymapLayer) -> PressAction {
    if active == KeymapLayer::Raise {
        PressAction::Key(kc::F7)
    } else if active == KeymapLayer::LowerAnsi {
        PressAction::Temp(kc::N7, kc::LEFT_SHIFT, 0)
    } else if active == KeymapLayer::Lower || active == KeymapLayer::LowerSeMac {
        PressAction::Temp(kc::N6, kc::LEFT_SHIFT, 0)
    } else if on_base(perm, active, KeymapLayer::DvorakAnsi) {
        PressAction::Key(kc::G)
    } else if on_base(perm, active, KeymapLayer::DvorakSe) || on_base(perm, active, KeymapLayer::DvorakSeMac) {
        PressAction::Key(kc::G)
    } else if on_base(perm, active, KeymapLayer::QwertyGaming) {
        PressAction::Key(kc::N7)
    } else {
        PressAction::Nothing
    }
}

pub open spec fn right_row0_col5_press(perm: Option<KeymapLayer>, active: KeymapLayer) -> PressAction {
    if active == KeymapLayer::Raise {
        PressAction::Key(kc::F6)
    } else if active == KeymapLayer::LowerAnsi {
        PressAction::Temp(kc::N6, kc::LEFT_SHIFT, 0)
    } else if active == KeymapLayer::Lower {
        PressAction::Circumflex
    } else if active == KeymapLayer::LowerSeMac {
        PressAction::Circumflex
    } else if on_base(perm, active, KeymapLayer::DvorakAnsi) {
        PressAction::Key(kc::F)
    } else if on_base(perm, active, KeymapLayer::DvorakSe) || on_base(perm, active, KeymapLayer::DvorakSeMac) {
        PressAction::Key(kc::F)
    } else if on_base(perm, active, KeymapLayer::QwertyGaming) {
        PressAction::Key(kc::N6)
    } else {
        PressAction::Nothing
    }
}

pub open spec fn right_row1_col0_press(perm: Option<KeymapLayer>, active: KeymapLayer) -> PressAction {
    PressAction::Key(kc::ENTER)
}

pub open spec fn right_row1_col1_press(perm: Option<KeymapLayer>, active: KeymapLayer) -> PressAction {
    if active == KeymapLayer::Num {
        PressAction::Key(kc::N0)
    } else if active == KeymapLayer::Raise {
        PressAction::Key(kc::KC_DELF)
    } else if active == KeymapLayer::LowerAnsi {
        PressAction::Key(kc::DASH)
    } else if active == KeymapLayer::Lower || active == KeymapLayer::LowerSeMac {
        PressAction::Key(kc::SLASH)
    } else if on_base(perm, active, KeymapLayer::DvorakAnsi) {
        PressAction::Key(kc::S)
    } else if on_base(perm, active, KeymapLayer::DvorakSe) || on_base(perm, active, KeymapLayer::DvorakSeMac) {
        PressAction::Key(kc::S)
    } else if on_base(perm, active, KeymapLayer::QwertyGaming) {
        PressAction::Key(kc::SEMICOLON)
    } else {
        PressAction::Nothing
    }
}

pub open spec fn right_row1_col2_press(perm: Option<KeymapLayer>, active: KeymapLayer) -> PressAction {
    if active == KeymapLayer::Num {
        PressAction::Key(kc::N9)
    } else if active == KeymapLayer::Raise {
        PressAction::Key(kc::HOME)
    } else if active == KeymapLayer::LowerAnsi {
        PressAction::Temp(kc::RIGHT_BRACKET, kc::RIGHT_ALT, 0)
    } else if active == KeymapLayer::Lower {
        PressAction::Temp(kc::N0, kc::RIGHT_ALT, 0)
    } else if active == KeymapLayer::LowerSeMac {
        PressAction::Temp(kc::N9, kc::LEFT_SHIFT, kc::LEFT_ALT)
    } else if on_base(perm, active, KeymapLayer::DvorakAnsi) {
        PressAction::Key(kc::N)
    } else if on_base(perm, active, KeymapLayer::DvorakSe) || on_base(perm, active, KeymapLayer::DvorakSeMac) {
        PressAction::Key(kc::N)
    } else if on_base(perm, active, KeymapLayer::QwertyGaming) {
        PressAction::Key(kc::L)
    } else {
        PressAction::Nothing
    }
}

pub open spec fn right_row1_col3_press(perm: Option<KeymapLayer>, active: KeymapLayer) -> PressAction {
    if active == KeymapLayer::Num {
        PressAction::Key(kc::N8)
    } else if active == KeymapLayer::Raise {
        PressAction::Key(kc::PAGE_UP)
    } else if active == KeymapLayer::LowerAnsi {
        PressAction::Temp(kc::LEFT_BRACKET, kc::LEFT_SHIFT, 0)
    } else if active == KeymapLayer::Lower {
        PressAction::Temp(kc::N7, kc::RIGHT_ALT, 0)
    } else if active == KeymapLayer::LowerSeMac {
        PressAction::Temp(kc::N8, kc::LEFT_SHIFT, kc::LEFT_ALT)
    } else if on_base(perm, active, KeymapLayer::DvorakAnsi) {
        PressAction::Key(kc::T)
    } else if on_base(perm, active, KeymapLayer::DvorakSe) || on_base(perm, active, KeymapLayer::DvorakSeMac) {
        PressAction::Key(kc::T)
    } else if on_base(perm, active, KeymapLayer::QwertyGaming) {
        PressAction::Key(kc::K)
    } else {
        PressAction::Nothing
    }
}

pub open spec fn right_row1_col4_press(perm: Option<KeymapLayer>, active: KeymapLayer) -> PressAction {
    if active == KeymapLayer::Num {
        PressAction::Key(kc::N7)
    } else if active == KeymapLayer::Raise {
        PressAction::Key(kc::PRINT_SCREEN)
    } else if active == KeymapLayer::LowerAnsi {
        PressAction::Key(kc::SLASH)
    } else if active == KeymapLayer::Lower || active == KeymapLayer::LowerSeMac {
        PressAction::Temp(kc::N7, kc::LEFT_SHIFT, 0)
    } else if on_base(perm, active, KeymapLayer::DvorakAnsi) {
        PressAction::Key(kc::H)
    } else if on_base(perm, active, KeymapLayer::DvorakSe) || on_base(perm, active, KeymapLayer::DvorakSeMac) {
        PressAction::Key(kc::H)
    } else if on_base(perm, active, KeymapLayer::QwertyGaming) {
        PressAction::Key(kc::J)
    } else {
        PressAction::Nothing
    }
}

pub open spec fn right_row1_col5_press(perm: Option<KeymapLayer>, active: KeymapLayer) -> PressAction {
    if active == KeymapLayer::Num {
        PressAction::Key(kc::N6)
    } else if active == KeymapLayer::Raise {
        PressAction::Key(kc::F12)
    } else if active == KeymapLayer::LowerAnsi {
        PressAction::Key(kc::BACKSLASH)
    } else if active == KeymapLayer::Lower {
        PressAction::Temp(kc::DASH, kc::RIGHT_ALT, 0)
    } else if active == KeymapLayer::LowerSeMac {
        PressAction::Temp(kc::N7, kc::LEFT_SHIFT, kc::LEFT_ALT)
    } else if on_base(perm, active, KeymapLayer::DvorakAnsi) {
        PressAction::Key(kc::D)
    } else if on_base(perm, active, KeymapLayer::DvorakSe) || on_base(perm, active, KeymapLayer::DvorakSeMac) {
        PressAction::Key(kc::D)
    } else if on_base(perm, active, KeymapLayer::QwertyGaming) {
        PressAction::Key(kc::H)
    } else {
        PressAction::Nothing
    }
}

pub open spec fn right_row2_col0_press(perm: Option<KeymapLayer>, active: KeymapLayer) -> PressAction {
    PressAction::Modifier(kc::LEFT_SHIFT)
}

pub open spec fn right_row2_col1_press(perm: Option<KeymapLayer>, active: KeymapLayer) -> PressAction {
    if active == KeymapLayer::Raise {
        PressAction::Key(kc::INSERT)
    } else if active == KeymapLayer::Lower || active == KeymapLayer::LowerSeMac {
        PressAction::Key(kc::SEMICOLON)
    } else if on_base(perm, active, KeymapLayer::DvorakAnsi) {
        PressAction::Key(kc::Z)
    } else if on_base(perm, active, KeymapLayer::DvorakSe) || on_base(perm, active, KeymapLayer::DvorakSeMac) {
        PressAction::Key(kc::Z)
    } else if on_base(perm, active, KeymapLayer::QwertyGaming) {
        PressAction::Key(kc::QUOTE)
    } else {
        PressAction::Nothing
    }
}

pub open spec fn right_row2_col2_press(perm: Option<KeymapLayer>, active: KeymapLayer) -> PressAction {
    if active == KeymapLayer::Settings {
        PressAction::PermLayer(KeymapLayer::DvorakAnsi)
    } else if active == KeymapLayer::Raise {
        PressAction::Key(kc::END)
    } else if active == KeymapLayer::Lower || active == KeymapLayer::LowerSeMac {
        PressAction::Key(kc::QUOTE)
    } else if on_base(perm, active, KeymapLayer::DvorakAnsi) {
        PressAction::Key(kc::V)
    } else if on_base(perm, active, KeymapLayer::DvorakSe) || on_base(perm, active, KeymapLayer::DvorakSeMac) {
        PressAction::Key(kc::V)
    } else if on_base(perm, active, KeymapLayer::QwertyGaming) {
        PressAction::Key(kc::DOT)
    } else {
        PressAction::Nothing
    }
}

pub open spec fn right_row2_col3_press(perm: Option<KeymapLayer>, active: KeymapLayer) -> PressAction {
    if active == KeymapLayer::Settings {
        PressAction::PermLayer(KeymapLayer::DvorakSe)
    } else if active == KeymapLayer::Raise {
        PressAction::Key(kc::PAGE_DOWN)
    } else if active == KeymapLayer::Lower || active == KeymapLayer::LowerSeMac {
        PressAction::Key(kc::LEFT_BRACKET)
    } else if on_base(perm, active, KeymapLayer::DvorakAnsi) {
        PressAction::Key(kc::W)
    } else if on_base(perm, active, KeymapLayer::DvorakSe) || on_base(perm, active, KeymapLayer::DvorakSeMac) {
        PressAction::Key(kc::W)
    } else if on_base(perm, active, KeymapLayer::QwertyGaming) {
        PressAction::Key(kc::COMMA)
    } else {
        PressAction::Nothing
    }
}

pub open spec fn right_row2_col4_press(perm: Option<KeymapLayer>, active: KeymapLayer) -> PressAction {
    if active == KeymapLayer::Settings {
        PressAction::PermLayer(KeymapLayer::QwertyGaming)
    } else if active == KeymapLayer::LowerAnsi {
        PressAction::Key(kc::PIPE)
    } else if active == KeymapLayer::Lower {
        PressAction::Temp(kc::NON_US_BACKSLASH, kc::RIGHT_ALT, 0)
    } else if active == KeymapLayer::LowerSeMac {
        PressAction::Temp(kc::N7, kc::LEFT_ALT, 0)
    } else if on_base(perm, active, KeymapLayer::DvorakAnsi) {
        PressAction::Key(kc::M)
    } else if on_base(perm, active, KeymapLayer::DvorakSe) || on_base(perm, active, KeymapLayer::DvorakSeMac) {
        PressAction::Key(kc::M)
    } else if on_base(perm, active, KeymapLayer::QwertyGaming) {
        PressAction::Key(kc::M)
    } else {
        PressAction::Nothing
    }
}

pub open spec fn right_row2_col5_press(perm: Option<KeymapLayer>, active: KeymapLayer) -> PressAction {
    if active == KeymapLayer::Settings {
        PressAction::PermLayer(KeymapLayer::DvorakSeMac)
    } else if active == KeymapLayer::LowerAnsi {
        PressAction::Key(kc::GRAVE)
    } else if active == KeymapLayer::Lower {
        PressAction::EqualsTwice
    } else if active == KeymapLayer::LowerSeMac {
        PressAction::EqualsSpace
    } else if on_base(perm, active, KeymapLayer::DvorakAnsi) {
        PressAction::Key(kc::B)
    } else if on_base(perm, active, KeymapLayer::DvorakSe) || on_base(perm, active, KeymapLayer::DvorakSeMac) {
        PressAction::Key(kc::B)
    } else if on_base(perm, active, KeymapLayer::QwertyGaming) {
        PressAction::Key(kc::N)
    } else {
        PressAction::Nothing
    }
}

pub open spec fn right_row3_col0_press(perm: Option<KeymapLayer>, active: KeymapLayer) -> PressAction {
    PressAction::Modifier(kc::LEFT_CONTROL)
}

pub open spec fn right_row3_col1_press(perm: Option<KeymapLayer>, active: KeymapLayer) -> PressAction {
    if active == KeymapLayer::Settings {
        PressAction::Nothing
    } else if on_base(perm, active, KeymapLayer::DvorakSe) {
        PressAction::TempLayer(KeymapLayer::Settings)
    } else if on_base(perm, active, KeymapLayer::DvorakSeMac) {
        PressAction::TempLayer(KeymapLayer::Settings)
    } else if on_base(perm, active, KeymapLayer::DvorakAnsi) {
        PressAction::TempLayer(KeymapLayer::Settings)
    } else if on_base(perm, active, KeymapLayer::QwertyGaming) {
        PressAction::TempLayer(KeymapLayer::Settings)
    } else {
        PressAction::Nothing
    }
}

pub open spec fn right_row3_col2_press(perm: Option<KeymapLayer>, active: KeymapLayer) -> PressAction {
    PressAction::Modifier(kc::RIGHT_ALT)
}

pub open spec fn right_row3_col3_press(perm: Option<KeymapLayer>, active: KeymapLayer) -> PressAction {
    if active == KeymapLayer::Raise {
        PressAction::Nothing
    } else if on_base(perm, active, KeymapLayer::DvorakSe) {
        PressAction::TempLayer(KeymapLayer::Raise)
    } else if on_base(perm, active, KeymapLayer::DvorakSeMac) {
        PressAction::TempLayer(KeymapLayer::Raise)
    } else if on_base(perm, active, KeymapLayer::DvorakAnsi) {
        PressAction::TempLayer(KeymapLayer::Raise)
    } else if on_base(perm, active, KeymapLayer::QwertyGaming) {
        PressAction::TempLayer(KeymapLayer::Raise)
    } else {
        PressAction::Nothing
    }
}

pub open spec fn right_row3_col4_press(perm: Option<KeymapLayer>, active: KeymapLayer) -> PressAction {
    if active == KeymapLayer::Num {
        PressAction::Nothing
    } else if on_base(perm, active, KeymapLayer::QwertyGaming) {
        PressAction::Key(kc::I)
    } else if on_base(perm, active, KeymapLayer::DvorakSe) {
        PressAction::TempLayer(KeymapLayer::Num)
    } else if on_base(perm, active, KeymapLayer::DvorakSeMac) {
        PressAction::TempLayer(KeymapLayer::Num)
    } else if on_base(perm, active, KeymapLayer::DvorakAnsi) {
        PressAction::TempLayer(KeymapLayer::Num)
    } else {
        PressAction::Nothing
    }
}

pub open spec fn right_row3_col5_press(perm: Option<KeymapLayer>, active: KeymapLayer) -> PressAction {
    if on_base(perm, active, KeymapLayer::DvorakAnsi) {
        PressAction::Key(kc::SPACE)
    } else if on_base(perm, active, KeymapLayer::DvorakSe) || on_base(perm, active, KeymapLayer::DvorakSeMac) {
        PressAction::Key(kc::SPACE)
    } else if on_base(perm, active, KeymapLayer::QwertyGaming) {
        PressAction::Key(kc::G)
    } else {
        PressAction::Nothing
    }
}

pub open spec fn right_row4_col1_press(perm: Option<KeymapLayer>, active: KeymapLayer) -> PressAction {
    PressAction::Nothing
}

pub open spec fn right_row4_col2_press(perm: Option<KeymapLayer>, active: KeymapLayer) -> PressAction {
    PressAction::Key(kc::N2)
}

pub open spec fn right_row4_col3_press(perm: Option<KeymapLayer>, active: KeymapLayer) -> PressAction {
    PressAction::Key(kc::N3)
}

pub open spec fn right_row4_col4_press(perm: Option<KeymapLayer>, active: KeymapLayer) -> PressAction {
    PressAction::Key(kc::N4)
}

pub open spec fn right_row4_col5_press(perm: Option<KeymapLayer>, active: KeymapLayer) -> PressAction {
    PressAction::Key(kc::N5)
}

/// What each key of the right half does when it comes up, by the layers in force when it went down.
pub open spec fn right_release_action(index: u8, perm: Option<KeymapLayer>, active: KeymapLayer) -> ReleaseAction {
    match index {
        0 => right_row0_col0_release(perm, active),
        1 => right_row0_col1_release(perm, active),
        2 => right_row0_col2_release(perm, active),
        3 => right_row0_col3_release(perm, active),
        4 => right_row0_col4_release(perm, active),
        5 => right_row0_col5_release(perm, active),
        6 => right_row1_col0_release(perm, active),
        7 => right_row1_col1_release(perm, active),
        8 => right_row1_col2_release(perm, active),
        9 => right_row1_col3_release(perm, active),
        10 => right_row1_col4_release(perm, active),
        11 => right_row1_col5_release(perm, active),
        12 => right_row2_col0_release(perm, active),
        13 => right_row2_col1_release(perm, active),
        14 => right_row2_col2_release(perm, active),
        15 => right_row2_col3_release(perm, active),
        16 => right_row2_col4_release(perm, active),
        17 => right_row2_col5_release(perm, active),
        18 => right_row3_col0_release(perm, active),
        19 => right_row3_col1_release(perm, active),
        20 => right_row3_col2_release(perm, active),
        21 => right_row3_col3_release(perm, active),
        22 => right_row3_col4_release(perm, active),
        23 => right_row3_col5_release(perm, active),
        25 => right_row4_col1_release(perm, active),
        26 => right_row4_col2_release(perm, active),
        27 => right_row4_col3_release(perm, active),
        28 => right_row4_col4_release(perm, active),
        29 => right_row4_col5_release(perm, active),
        _ => ReleaseAction::Nothing,
    }
}

pub open spec fn right_row0_col0_release(perm: Option<KeymapLayer>, active: KeymapLayer) -> ReleaseAction {
    ReleaseAction::Key(kc::BACKSPACE)
}

pub open spec fn right_row0_col1_release(perm: Option<KeymapLayer>, active: KeymapLayer) -> ReleaseAction {
    if active == KeymapLayer::Raise {
        ReleaseAction::Key(kc::F10)
    } else if active == KeymapLayer::LowerAnsi || active == KeymapLayer::Lower || active == KeymapLayer::LowerSeMac {
        ReleaseAction::Restore
    } else if on_base(perm, active, KeymapLayer::DvorakAnsi) {
        ReleaseAction::Key(kc::L)
    } else if on_base(perm, active, KeymapLayer::DvorakSe) || on_base(perm, active, KeymapLayer::DvorakSeMac) {
        ReleaseAction::Key(kc::L)
    } else if on_base(perm, active, KeymapLayer::QwertyGaming) {
        ReleaseAction::Key(kc::N0)
    } else {
        ReleaseAction::Nothing
    }
}

pub open spec fn right_row0_col2_release(perm: Option<KeymapLayer>, active: KeymapLayer) -> ReleaseAction {
    if active == KeymapLayer::Raise {
        ReleaseAction::Key(kc::F9)
    } else if active == KeymapLayer::LowerAnsi || active == KeymapLayer::Lower || active == KeymapLayer::LowerSeMac {
        ReleaseAction::Restore
    } else if on_base(perm, active, KeymapLayer::DvorakAnsi) {
        ReleaseAction::Key(kc::R)
    } else if on_base(perm, active, KeymapLayer::DvorakSe) || on_base(perm, active, KeymapLayer::DvorakSeMac) {
        ReleaseAction::Key(kc::R)
    } else if on_base(perm, active, KeymapLayer::QwertyGaming) {
        ReleaseAction::Key(kc::N9)
    } else {
        ReleaseAction::Nothing
    }
}

pub open spec fn right_row0_col3_release(perm: Option<KeymapLayer>, active: KeymapLayer) -> ReleaseAction {
    if active == KeymapLayer::Raise {
        ReleaseAction::Key(kc::F8)
    } else if active == KeymapLayer::LowerAnsi || active == KeymapLayer::Lower || active == KeymapLayer::LowerSeMac {
        ReleaseAction::Restore
    } else if on_base(perm, active, KeymapLayer::DvorakAnsi) {
        ReleaseAction::Key(kc::C)
    } else if on_base(perm, active, KeymapLayer::DvorakSe) || on_base(perm, active, KeymapLayer::DvorakSeMac) {
        ReleaseAction::Key(kc::C)
    } else if on_base(perm, active, KeymapLayer::QwertyGaming) {
        ReleaseAction::Key(kc::N8)
    } else {
        ReleaseAction::Nothing
    }
}

pub open spec fn right_row0_col4_release(perm: Option<KeymapLayer>, active: KeymapLayer) -> ReleaseAction {
    if active == KeymapLayer::Raise {
        ReleaseAction::Key(kc::F7)
    } else if active == KeymapLayer::LowerAnsi || active == KeymapLayer::Lower || active == KeymapLayer::LowerSeMac {
        ReleaseAction::Restore
    } else if on_base(perm, active, KeymapLayer::DvorakAnsi) {
        ReleaseAction::Key(kc::G)
    } else if on_base(perm, active, KeymapLayer::DvorakSe) || on_base(perm, active, KeymapLayer::DvorakSeMac) {
        ReleaseAction::Key(kc::G)
    } else if on_base(perm, active, KeymapLayer::QwertyGaming) {
        ReleaseAction::Key(kc::N7)
    } else {
        ReleaseAction::Nothing
    }
}

pub open spec fn right_row0_col5_release(perm: Option<KeymapLayer>, active: KeymapLayer) -> ReleaseAction {
    if active == KeymapLayer::Raise {
        ReleaseAction::Key(kc::F6)
    } else if active == KeymapLayer::LowerAnsi || active == KeymapLayer::Lower || active == KeymapLayer::LowerSeMac {
        ReleaseAction::Restore
    } else if on_base(perm, active, KeymapLayer::DvorakAnsi) {
        ReleaseAction::Key(kc::F)
    } else if on_base(perm, active, KeymapLayer::DvorakSe) || on_base(perm, active, KeymapLayer::DvorakSeMac) {
        ReleaseAction::Key(kc::F)
    } else if on_base(perm, active, KeymapLayer::QwertyGaming) {
        ReleaseAction::Key(kc::N6)
    } else {
        ReleaseAction::Nothing
    }
}

pub open spec fn right_row1_col0_release(perm: Option<KeymapLayer>, active: KeymapLayer) -> ReleaseAction {
    ReleaseAction::Key(kc::ENTER)
}

pub open spec fn right_row1_col1_release(perm: Option<KeymapLayer>, active: KeymapLayer) -> ReleaseAction {
    if active == KeymapLayer::Num {
        ReleaseAction::Key(kc::N0)
    } else if active == KeymapLayer::Raise {
        ReleaseAction::Key(kc::KC_DELF)
    } else if active == KeymapLayer::LowerAnsi {
        ReleaseAction::Key(kc::DASH)
    } else if active == KeymapLayer::Lower || active == KeymapLayer::LowerSeMac {
        ReleaseAction::Key(kc::SLASH)
    } else if on_base(perm, active, KeymapLayer::DvorakAnsi) {
        ReleaseAction::Key(kc::S)
    } else if on_base(perm, active, KeymapLayer::DvorakSe) || on_base(perm, active, KeymapLayer::DvorakSeMac) {
        ReleaseAction::Key(kc::S)
    } else if on_base(perm, active, KeymapLayer::QwertyGaming) {
        ReleaseAction::Key(kc::SEMICOLON)
    } else {
        ReleaseAction::Nothing
    }
}

pub open spec fn right_row1_col2_release(perm: Option<KeymapLayer>, active: KeymapLayer) -> ReleaseAction {
    if active == KeymapLayer::Num {
        ReleaseAction::Key(kc::N9)
    } else if active == KeymapLayer::Raise {
        ReleaseAction::Key(kc::HOME)
    } else if active == KeymapLayer::LowerAnsi || active == KeymapLayer::Lower || active == KeymapLayer::LowerSeMac {
        ReleaseAction::Restore
    } else if on_base(perm, active, KeymapLayer::DvorakAnsi) {
        ReleaseAction::Key(kc::N)
    } else if on_base(perm, active, KeymapLayer::DvorakSe) || on_base(perm, active, KeymapLayer::DvorakSeMac) {
        ReleaseAction::Key(kc::N)
    } else if on_base(perm, active, KeymapLayer::QwertyGaming) {
        ReleaseAction::Key(kc::L)
    } else {
        ReleaseAction::Nothing
    }
}

pub open spec fn right_row1_col3_release(perm: Option<KeymapLayer>, active: KeymapLayer) -> ReleaseAction {
    if active == KeymapLayer::Num {
        ReleaseAction::Key(kc::N8)
    } else if active == KeymapLayer::Raise {
        ReleaseAction::Key(kc::PAGE_UP)
    } else if active == KeymapLayer::LowerAnsi || active == KeymapLayer::Lower || active == KeymapLayer::LowerSeMac {
        ReleaseAction::Restore
    } else if on_base(perm, active, KeymapLayer::DvorakAnsi) {
        ReleaseAction::Key(kc::T)
    } else if on_base(perm, active, KeymapLayer::DvorakSe) || on_base(perm, active, KeymapLayer::DvorakSeMac) {
        ReleaseAction::Key(kc::T)
    } else if on_base(perm, active, KeymapLayer::QwertyGaming) {
        ReleaseAction::Key(kc::K)
    } else {
        ReleaseAction::Nothing
    }
}

pub open spec fn right_row1_col4_release(perm: Option<KeymapLayer>, active: KeymapLayer) -> ReleaseAction {
    if active == KeymapLayer::Lower || active == KeymapLayer::LowerSeMac {
        ReleaseAction::Restore
    } else if active == KeymapLayer::Num {
        ReleaseAction::Key(kc::N7)
    } else if active == KeymapLayer::Raise {
        ReleaseAction::Key(kc::PRINT_SCREEN)
    } else if active == KeymapLayer::LowerAnsi {
        ReleaseAction::Key(kc::SLASH)
    } else if on_base(perm, active, KeymapLayer::DvorakAnsi) {
        ReleaseAction::Key(kc::H)
    } else if on_base(perm, active, KeymapLayer::DvorakSe) || on_base(perm, active, KeymapLayer::DvorakSeMac) {
        ReleaseAction::Key(kc::H)
    } else if on_base(perm, active, KeymapLayer::QwertyGaming) {
        ReleaseAction::Key(kc::J)
    } else {
        ReleaseAction::Nothing
    }
}

pub open spec fn right_row1_col5_release(perm: Option<KeymapLayer>, active: KeymapLayer) -> ReleaseAction {
    if active == KeymapLayer::Num {
        ReleaseAction::Key(kc::N6)
    } else if active == KeymapLayer::Raise {
        ReleaseAction::Key(kc::F12)
    } else if active == KeymapLayer::LowerAnsi {
        ReleaseAction::Key(kc::BACKSLASH)
    } else if active == KeymapLayer::Lower || active == KeymapLayer::LowerSeMac {
        ReleaseAction::Restore
    } else if on_base(perm, active, KeymapLayer::DvorakAnsi) {
        ReleaseAction::Key(kc::D)
    } else if on_base(perm, active, KeymapLayer::DvorakSe) || on_base(perm, active, KeymapLayer::DvorakSeMac) {
        ReleaseAction::Key(kc::D)
    } else if on_base(perm, active, KeymapLayer::QwertyGaming) {
        ReleaseAction::Key(kc::H)
    } else {
        ReleaseAction::Nothing
    }
}

pub open spec fn right_row2_col0_release(perm: Option<KeymapLayer>, active: KeymapLayer) -> ReleaseAction {
    ReleaseAction::Modifier(kc::LEFT_SHIFT)
}

pub open spec fn right_row2_col1_release(perm: Option<KeymapLayer>, active: KeymapLayer) -> ReleaseAction {
    if active == KeymapLayer::Raise {
        ReleaseAction::Key(kc::INSERT)
    } else if active == KeymapLayer::Lower || active == KeymapLayer::LowerSeMac {
        ReleaseAction::Key(kc::SEMICOLON)
    } else if on_base(perm, active, KeymapLayer::DvorakAnsi) {
        ReleaseAction::Key(kc::Z)
    } else if on_base(perm, active, KeymapLayer::DvorakSe) || on_base(perm, active, KeymapLayer::DvorakSeMac) {
        ReleaseAction::Key(kc::Z)
    } else if on_base(perm, active, KeymapLayer::QwertyGaming) {
        ReleaseAction::Key(kc::QUOTE)
    } else {
        ReleaseAction::Nothing
    }
}

pub open spec fn right_row2_col2_release(perm: Option<KeymapLayer>, active: KeymapLayer) -> ReleaseAction {
    if active == KeymapLayer::Raise {
        ReleaseAction::Key(kc::END)
    } else if active == KeymapLayer::Lower || active == KeymapLayer::LowerSeMac {
        ReleaseAction::Key(kc::QUOTE)
    } else if on_base(perm, active, KeymapLayer::DvorakAnsi) {
        ReleaseAction::Key(kc::V)
    } else if on_base(perm, active, KeymapLayer::DvorakSe) || on_base(perm, active, KeymapLayer::DvorakSeMac) {
        ReleaseAction::Key(kc::V)
    } else if on_base(perm, active, KeymapLayer::QwertyGaming) {
        ReleaseAction::Key(kc::DOT)
    } else {
        ReleaseAction::Nothing
    }
}

pub open spec fn right_row2_col3_release(perm: Option<KeymapLayer>, active: KeymapLayer) -> ReleaseAction {
    if active == KeymapLayer::Raise {
        ReleaseAction::Key(kc::PAGE_DOWN)
    } else if active == KeymapLayer::Lower || active == KeymapLayer::LowerSeMac {
        ReleaseAction::Key(kc::LEFT_BRACKET)
    } else if on_base(perm, active, KeymapLayer::DvorakAnsi) {
        ReleaseAction::Key(kc::W)
    } else if on_base(perm, active, KeymapLayer::DvorakSe) || on_base(perm, active, KeymapLayer::DvorakSeMac) {
        ReleaseAction::Key(kc::W)
    } else if on_base(perm, active, KeymapLayer::QwertyGaming) {
        ReleaseAction::Key(kc::COMMA)
    } else {
        ReleaseAction::Nothing
    }
}

pub open spec fn right_row2_col4_release(perm: Option<KeymapLayer>, active: KeymapLayer) -> ReleaseAction {
    if active == KeymapLayer::LowerAnsi {
        ReleaseAction::Key(kc::PIPE)
    } else if active == KeymapLayer::Lower || active == KeymapLayer::LowerSeMac {
        ReleaseAction::Restore
    } else if on_base(perm, active, KeymapLayer::DvorakAnsi) {
        ReleaseAction::Key(kc::M)
    } else if on_base(perm, active, KeymapLayer::DvorakSe) || on_base(perm, active, KeymapLayer::DvorakSeMac) {
        ReleaseAction::Key(kc::M)
    } else if on_base(perm, active, KeymapLayer::QwertyGaming) {
        ReleaseAction::Key(kc::M)
    } else {
        ReleaseAction::Nothing
    }
}

pub open spec fn right_row2_col5_release(perm: Option<KeymapLayer>, active: KeymapLayer) -> ReleaseAction {
    if active == KeymapLayer::LowerAnsi {
        ReleaseAction::Key(kc::GRAVE)
    } else if active == KeymapLayer::Lower || active == KeymapLayer::LowerSeMac {
        ReleaseAction::Restore
    } else if on_base(perm, active, KeymapLayer::DvorakAnsi) {
        ReleaseAction::Key(kc::B)
    } else if on_base(perm, active, KeymapLayer::DvorakSe) || on_base(perm, active, KeymapLayer::DvorakSeMac) {
        ReleaseAction::Key(kc::B)
    } else if on_base(perm, active, KeymapLayer::QwertyGaming) {
        ReleaseAction::Key(kc::N)
    } else {
        ReleaseAction::Nothing
    }
}

pub open spec fn right_row3_col0_release(perm: Option<KeymapLayer>, active: KeymapLayer) -> ReleaseAction {
    ReleaseAction::Modifier(kc::LEFT_CONTROL)
}

pub open spec fn right_row3_col1_release(perm: Option<KeymapLayer>, active: KeymapLayer) -> ReleaseAction {
    if active == KeymapLayer::Settings {
        ReleaseAction::TempLayer(KeymapLayer::Settings)
    } else if on_base(perm, active, KeymapLayer::DvorakSe) || on_base(perm, active, KeymapLayer::DvorakSeMac) {
        ReleaseAction::Nothing
    } else if on_base(perm, active, KeymapLayer::DvorakAnsi) {
        ReleaseAction::Nothing
    } else if on_base(perm, active, KeymapLayer::QwertyGaming) {
        ReleaseAction::Nothing
    } else {
        ReleaseAction::Nothing
    }
}

pub open spec fn right_row3_col2_release(perm: Option<KeymapLayer>, active: KeymapLayer) -> ReleaseAction {
    ReleaseAction::Modifier(kc::RIGHT_ALT)
}

pub open spec fn right_row3_col3_release(perm: Option<KeymapLayer>, active: KeymapLayer) -> ReleaseAction {
    if active == KeymapLayer::Raise {
        ReleaseAction::TempLayer(KeymapLayer::Raise)
    } else if on_base(perm, active, KeymapLayer::DvorakSe) {
        ReleaseAction::Nothing
    } else if on_base(perm, active, KeymapLayer::DvorakAnsi) {
        ReleaseAction::Nothing
    } else if on_base(perm, active, KeymapLayer::QwertyGaming) {
        ReleaseAction::Nothing
    } else {
        ReleaseAction::Nothing
    }
}

pub open spec fn right_row3_col4_release(perm: Option<KeymapLayer>, active: KeymapLayer) -> ReleaseAction {
    if active == KeymapLayer::Num {
        ReleaseAction::TempLayer(KeymapLayer::Num)
    } else if on_base(perm, active, KeymapLayer::QwertyGaming) {
        ReleaseAction::PressKey(kc::I)
    } else if on_base(perm, active, KeymapLayer::DvorakSe) || on_base(perm, active, KeymapLayer::DvorakSeMac) {
        ReleaseAction::Nothing
    } else if on_base(perm, active, KeymapLayer::DvorakAnsi) {
        ReleaseAction::Nothing
    } else {
        ReleaseAction::Nothing
    }
}

pub open spec fn right_row3_col5_release(perm: Option<KeymapLayer>, active: KeymapLayer) -> ReleaseAction {
    if on_base(perm, active, KeymapLayer::DvorakAnsi) {
        ReleaseAction::Key(kc::SPACE)
    } else if on_base(perm, active, KeymapLayer::DvorakSe) || on_base(perm, active, KeymapLayer::DvorakSeMac) {
        ReleaseAction::Key(kc::SPACE)
    } else if on_base(perm, active, KeymapLayer::QwertyGaming) {
        ReleaseAction::Key(kc::G)
    } else {
        ReleaseAction::Nothing
    }
}

pub open spec fn right_row4_col1_release(perm: Option<KeymapLayer>, active: KeymapLayer) -> ReleaseAction {
    ReleaseAction::Nothing
}

pub open spec fn right_row4_col2_release(perm: Option<KeymapLayer>, active: KeymapLayer) -> ReleaseAction {
    ReleaseAction::Key(kc::N2)
}

pub open spec fn right_row4_col3_release(perm: Option<KeymapLayer>, active: KeymapLayer) -> ReleaseAction {
    ReleaseAction::Key(kc::N3)
}

pub open spec fn right_row4_col4_release(perm: Option<KeymapLayer>, active: KeymapLayer) -> ReleaseAction {
    ReleaseAction::Key(kc::N4)
}

pub open spec fn right_row4_col5_release(perm: Option<KeymapLayer>, active: KeymapLayer) -> ReleaseAction {
    ReleaseAction::Key(kc::N5)
}

} // verus!
