//! Logical key events, as delivered by the host's input loop.

use vstd::prelude::*;

verus! {

/// One key press. Keys that nothing in the engine binds arrive as `Other`.
#[derive(Clone, Copy, Debug, PartialEq, Eq)]
pub enum Key {
    Char(char),
    Enter,
    Esc,
    Tab,
    BackTab,
    Backspace,
    Left,
    Right,
    Other,
}

} // verus!
