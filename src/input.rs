//! Key events, as the keyboard driver decodes them.

use vstd::prelude::*;
use crate::editing::char_byte;

verus! {

/// The named keys that the shell reacts to.
#[derive(Clone, Copy, Debug, PartialEq, Eq, Structural)]
pub enum KeyCode {
    F1,
    F2,
    F3,
    F4,
    F5,
    F6,
    F7,
    F8,
    ArrowUp,
    ArrowDown,
    ArrowLeft,
    ArrowRight,
    /// Any other named key.
    Other,
}

/// A decoded key: a named key, or a character (backspace and enter come as
/// the characters `'\u{8}'` and `'\n'`).
#[derive(Clone, Copy, Debug, PartialEq, Eq, Structural)]
pub enum KeyEvent {
    Raw(KeyCode),
    Unicode(char),
}

pub const BACKSPACE: char = '\u{8}';
pub const ENTER: char = '\n';

/// Lowest and highest byte that the text screen can show.
pub const MIN_DRAWABLE: u8 = 0x20;
pub const MAX_DRAWABLE: u8 = 0x7e;

/// A character can be shown when its low byte is printable ASCII.
pub open spec fn drawable(c: char) -> bool {
    MIN_DRAWABLE <= char_byte(c) <= MAX_DRAWABLE
}

/// Whether the text screen can show `c`.
pub fn is_drawable(c: char) -> (r: bool)
    ensures
        r == drawable(c),
{
    let b: u8 = (c as u32 % 256) as u8;
    MIN_DRAWABLE <= b && b <= MAX_DRAWABLE
}

} // verus!
