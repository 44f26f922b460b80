//! Names of toggle keys and mouse buttons, and their Linux input codes.

use vstd::prelude::*;
use crate::text::same_text;

verus! {

/// Code of the left mouse button (`BTN_LEFT`).
pub const BTN_LEFT: u16 = 0x110;

/// Code of the right mouse button (`BTN_RIGHT`).
pub const BTN_RIGHT: u16 = 0x111;

/// Code of the middle mouse button (`BTN_MIDDLE`).
pub const BTN_MIDDLE: u16 = 0x112;

/// The button codes that the synthetic device advertises.
pub open spec fn is_button_code(code: u16) -> bool {
    code == BTN_LEFT || code == BTN_RIGHT || code == BTN_MIDDLE
}

/// The code of a mouse button name: `left`, `right` or `middle`.
pub open spec fn button_code_of(name: Seq<char>) -> Option<u16> {
    if name == "left"@ {
        Some(BTN_LEFT)
    } else if name == "right"@ {
        Some(BTN_RIGHT)
    } else if name == "middle"@ {
        Some(BTN_MIDDLE)
    } else {
        None
    }
}

/// The code of a toggle key name: the function keys `F1` to `F12`.
pub open spec fn key_code_of(name: Seq<char>) -> Option<u16> {
    if name == "F1"@ {
        Some(59u16)
    } else if name == "F2"@ {
        Some(60u16)
    } else if name == "F3"@ {
        Some(61u16)
    } else if name == "F4"@ {
        Some(62u16)
    } else if name == "F5"@ {
        Some(63u16)
    } else if name == "F6"@ {
        Some(64u16)
    } else if name == "F7"@ {
        Some(65u16)
    } else if name == "F8"@ {
        Some(66u16)
    } else if name == "F9"@ {
        Some(67u16)
    } else if name == "F10"@ {
        Some(68u16)
    } else if name == "F11"@ {
        Some(87u16)
    } else if name == "F12"@ {
        Some(88u16)
    } else {
        None
    }
}

/// The code of a mouse button name, or `None` for an unknown name.
pub fn button_code(name: &str) -> (r: Option<u16>)
    ensures
        r == button_code_of(name@),
        r matches Some(c) ==> is_button_code(c),
{
    if same_text(name, "left") {
        Some(BTN_LEFT)
    } else if same_text(name, "right") {
        Some(BTN_RIGHT)
    } else if same_text(name, "middle") {
        Some(BTN_MIDDLE)
    } else {
        None
    }
}

/// The code of a toggle key name, or `None` for an unknown name.
pub fn key_code(name: &str) -> (r: Option<u16>)
    ensures
        r == key_code_of(name@),
{
    if same_text(name, "F1") {
        Some(59)
    } else if same_text(name, "F2") {
        Some(60)
    } else if same_text(name, "F3") {
        Some(61)
    } else if same_text(name, "F4") {
        Some(62)
    } else if same_text(name, "F5") {
        Some(63)
    } else if same_text(name, "F6") {
        Some(64)
    } else if same_text(name, "F7") {
        Some(65)
    } else if same_text(name, "F8") {
        Some(66)
    } else if same_text(name, "F9") {
        Some(67)
    } else if same_text(name, "F10") {
        Some(68)
    } else if same_text(name, "F11") {
        Some(87)
    } else if same_text(name, "F12") {
        Some(88)
    } else {
        None
    }
}

} // verus!
