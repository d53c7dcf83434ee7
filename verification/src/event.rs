//! Input as the pages read it: the keys and the mouse wheel.

use vstd::prelude::*;

verus! {

/// The key that was pressed.
#[derive(Clone, Copy, Debug, PartialEq, Eq, Structural)]
pub enum KeyCode {
    Char(char),
    Enter,
    Esc,
    Backspace,
    Up,
    Down,
    /// Any key that no page reads.
    Other,
}

/// No modifier key is held.
pub const NO_MODIFIERS: u8 = 0;

/// The bit of the shift key among a key's modifiers.
pub const SHIFT: u8 = 1;

/// The bit of the control key among a key's modifiers.
pub const CONTROL: u8 = 2;

/// The bit of the alt key among a key's modifiers.
pub const ALT: u8 = 4;

/// A key press: the key and, as a set of bits, the modifier keys held with
/// it.
#[derive(Clone, Copy, Debug, PartialEq, Eq, Structural)]
pub struct KeyEvent {
    pub code: KeyCode,
    pub modifiers: u8,
}

/// What the mouse did.
#[derive(Clone, Copy, Debug, PartialEq, Eq, Structural)]
pub enum MouseEventKind {
    ScrollUp,
    ScrollDown,
    /// Anything that no page reads.
    Other,
}

/// One input event.
#[derive(Clone, Copy, Debug, PartialEq, Eq, Structural)]
pub enum Event {
    Key(KeyEvent),
    Mouse(MouseEventKind),
    /// Anything that no page reads.
    Other,
}

} // verus!
