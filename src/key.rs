use vstd::prelude::*;

verus! {

/// A key press, as the frontend's key dispatch sees it.
#[derive(Clone, Copy, Debug, PartialEq, Eq, Structural)]
pub enum Key {
    Char(char),
    Enter,
    Esc,
    Backspace,
    Up,
    Down,
    Other,
}

/// Keys that move a list selection one row down.
pub open spec fn is_down(k: Key) -> bool {
    k == Key::Down || k == Key::Char('j')
}

/// Keys that move a list selection one row up.
pub open spec fn is_up(k: Key) -> bool {
    k == Key::Up || k == Key::Char('k')
}

/// Keys that leave the current page (or the program, on the topic list).
pub open spec fn is_leave(k: Key) -> bool {
    k == Key::Char('q') || k == Key::Esc
}

} // verus!
