//! The events that the windowing system delivers for one window, as far as
//! the controller reads them.

use crate::display::{CursorPosition, PhysicalSize};
use crate::modifiers::Modifiers;
use vstd::prelude::*;

verus! {

/// The logical key of a keyboard event.
pub enum Key {
    /// A key that produces printable text.
    Character(String),
    /// Any other key.
    Other,
}

/// An event for one window.
pub enum WindowEvent {
    /// The window's inner size changed.
    Resized(PhysicalSize),
    /// The window should be redrawn.
    RedrawRequested,
    /// The window became fully hidden (`true`) or visible again (`false`).
    Occluded(bool),
    /// The user asked for the window to be closed.
    CloseRequested,
    /// The set of held modifiers changed.
    ModifiersChanged(Modifiers),
    /// A key was pressed or released. A synthetic event is one that the
    /// windowing system made up, for keys held while focus changed.
    KeyboardInput { logical_key: Key, pressed: bool, is_synthetic: bool },
    /// The cursor left the window.
    CursorLeft,
    /// The cursor moved inside the window.
    CursorMoved(CursorPosition),
    /// Any other event.
    Other,
}

} // verus!
