use vstd::prelude::*;

verus! {

/// A key press as the prompt and the effect screen read it.
#[derive(Clone, Copy, PartialEq, Eq, Structural, Debug)]
pub enum Key {
    Esc,
    Enter,
    Backspace,
    Tab,
    Up,
    Down,
    Char(char),
    /// Any key that neither screen reacts to.
    Other,
}

} // verus!
