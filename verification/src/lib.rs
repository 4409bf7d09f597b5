//! Verified core of a split rp2040 keyboard firmware: the key matrix wire
//! format, the fixed-capacity queues, the debouncing and the keymap state
//! machine that turns key presses into HID keyboard reports.

pub mod matrix;
pub mod keycodes;
pub mod queue;
pub mod ring_buffer;
pub mod hid;
pub mod keymap;
pub mod layout;
pub mod mapping;
pub mod time;
pub mod debounce;
pub mod keyboard;
pub mod right_half;
pub mod runtime;
pub mod spsc;
pub mod admin;
pub mod split_serial;
pub mod oled;
pub mod usb_serial;
pub mod debugger;
pub mod keycore;
pub mod typing;
