//! Input events as the terminal driver reports them.

use crate::key::Key;
use vstd::prelude::*;

verus! {

/// A mouse button, or a turn of the wheel reported as one.
#[derive(Debug, Copy, Clone, Hash, PartialEq, Eq, Structural)]
pub enum MouseButton {
    Left,
    Right,
    Middle,
    WheelUp,
    WheelDown,
}

/// A mouse interaction at a column and row.
#[derive(Debug, Copy, Clone, Hash, PartialEq, Eq, Structural)]
pub enum MouseEvent {
    /// A button went down.
    Press(MouseButton, u16, u16),
    /// The button came up.
    Release(u16, u16),
    /// The pointer moved with a button held.
    Hold(u16, u16),
}

/// One input event.
#[derive(Debug, Clone, Hash, PartialEq, Eq)]
pub enum Event {
    /// A key press.
    Key(Key),
    /// A mouse interaction.
    Mouse(MouseEvent),
    /// Input that the terminal driver could not interpret, as raw bytes.
    Unsupported(Vec<u8>),
}

} // verus!
