//! Normalized terminal input, independent of the terminal back-end and of the editor widget.
use vstd::prelude::*;

verus! {

/// A normalized key press.
#[derive(Debug, Clone, Copy, PartialEq, Eq, Structural)]
pub struct KeyPress {
    pub code: Key,
    pub ctrl: bool,
    pub alt: bool,
    pub shift: bool,
}

/// Which phase of a left-button mouse gesture a message carries.
#[derive(Debug, Clone, Copy, PartialEq, Eq, Structural)]
pub enum MouseKind {
    Down,
    Drag,
    Up,
}

/// The subset of keys the front-end acts on.
#[derive(Debug, Clone, Copy, PartialEq, Eq, Structural)]
pub enum Key {
    Char(char),
    Enter,
    Backspace,
    Delete,
    Left,
    Right,
    Up,
    Down,
    Home,
    End,
    PageUp,
    PageDown,
    Esc,
    Tab,
    /// Shift+Tab (terminals report it as a distinct back-tab key).
    BackTab,
}

impl KeyPress {
    /// Neither Ctrl nor Alt is held.
    pub open spec fn unmodified(self) -> bool {
        !self.ctrl && !self.alt
    }
}

} // verus!
