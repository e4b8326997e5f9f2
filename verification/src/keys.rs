//! The keys the screens react to, as plain values. The terminal layer
//! translates its own key events into these before handing them to a
//! screen's key handler.

use vstd::prelude::*;

verus! {

/// One key press.
#[derive(Debug, Clone, Copy, PartialEq, Eq, Structural)]
pub enum Key {
    Up,
    Down,
    Enter,
    Esc,
    Tab,
    BackTab,
    Backspace,
    Char(char),
}

} // verus!
