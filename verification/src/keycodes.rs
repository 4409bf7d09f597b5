//! USB HID keyboard usage codes (keyboard page 0x07) and modifier bits.
use vstd::prelude::*;

verus! {

/// A key's usage id in the HID keyboard page.
#[derive(Debug, Copy, Clone, PartialEq, Eq, Structural)]
pub struct KeyCode(pub u8);

/// A set of modifier keys as the bit mask of a HID keyboard report.
#[derive(Debug, Copy, Clone, PartialEq, Eq, Structural)]
pub struct Modifier(pub u8);

pub const A: u8 = 0x04;
pub const B: u8 = 0x05;
pub const C: u8 = 0x06;
pub const D: u8 = 0x07;
pub const E: u8 = 0x08;
pub const F: u8 = 0x09;
pub const G: u8 = 0x0a;
pub const H: u8 = 0x0b;
pub const I: u8 = 0x0c;
pub const J: u8 = 0x0d;
pub const K: u8 = 0x0e;
pub const L: u8 = 0x0f;
pub const M: u8 = 0x10;
pub const N: u8 = 0x11;
pub const O: u8 = 0x12;
pub const P: u8 = 0x13;
pub const Q: u8 = 0x14;
pub const R: u8 = 0x15;
pub const S: u8 = 0x16;
pub const T: u8 = 0x17;
pub const U: u8 = 0x18;
pub const V: u8 = 0x19;
pub const W: u8 = 0x1a;
pub const X: u8 = 0x1b;
pub const Y: u8 = 0x1c;
pub const Z: u8 = 0x1d;
pub const N1: u8 = 0x1e;
pub const N2: u8 = 0x1f;
pub const N3: u8 = 0x20;
pub const N4: u8 = 0x21;
pub const N5: u8 = 0x22;
pub const N6: u8 = 0x23;
pub const N7: u8 = 0x24;
pub const N8: u8 = 0x25;
pub const N9: u8 = 0x26;
pub const N0: u8 = 0x27;
pub const ENTER: u8 = 0x28;
pub const ESCAPE: u8 = 0x29;
pub const BACKSPACE: u8 = 0x2a;
pub const TAB: u8 = 0x2b;
pub const SPACE: u8 = 0x2c;
pub const DASH: u8 = 0x2d;
pub const EQUALS: u8 = 0x2e;
pub const LEFT_BRACKET: u8 = 0x2f;
pub const RIGHT_BRACKET: u8 = 0x30;
pub const BACKSLASH: u8 = 0x31;
/// Non-US `#` and `~`.
pub const PIPE: u8 = 0x32;
pub const SEMICOLON: u8 = 0x33;
pub const QUOTE: u8 = 0x34;
pub const GRAVE: u8 = 0x35;
pub const COMMA: u8 = 0x36;
pub const DOT: u8 = 0x37;
pub const SLASH: u8 = 0x38;
pub const F1: u8 = 0x3a;
pub const F2: u8 = 0x3b;
pub const F3: u8 = 0x3c;
pub const F4: u8 = 0x3d;
pub const F5: u8 = 0x3e;
pub const F6: u8 = 0x3f;
pub const F7: u8 = 0x40;
pub const F8: u8 = 0x41;
pub const F9: u8 = 0x42;
pub const F10: u8 = 0x43;
pub const F11: u8 = 0x44;
pub const F12: u8 = 0x45;
pub const PRINT_SCREEN: u8 = 0x46;
pub const INSERT: u8 = 0x49;
pub const HOME: u8 = 0x4a;
pub const PAGE_UP: u8 = 0x4b;
/// Delete forward.
pub const KC_DELF: u8 = 0x4c;
pub const END: u8 = 0x4d;
pub const PAGE_DOWN: u8 = 0x4e;
pub const RIGHT_ARROW: u8 = 0x4f;
pub const LEFT_ARROW: u8 = 0x50;
pub const DOWN_ARROW: u8 = 0x51;
pub const UP_ARROW: u8 = 0x52;
pub const KP_PLUS: u8 = 0x57;
/// Non-US `\` and `|`, the key left of `Z` on ISO layouts.
pub const NON_US_BACKSLASH: u8 = 0x64;

pub const LEFT_CONTROL: u8 = 0x01;
pub const LEFT_SHIFT: u8 = 0x02;
pub const LEFT_ALT: u8 = 0x04;
pub const LEFT_GUI: u8 = 0x08;
pub const RIGHT_CONTROL: u8 = 0x10;
pub const RIGHT_SHIFT: u8 = 0x20;
pub const RIGHT_ALT: u8 = 0x40;
pub const RIGHT_GUI: u8 = 0x80;
/// Either shift key.
pub const ANY_SHIFT: u8 = 0x22;

} // verus!
