//! Keys as the interface understands them.

use vstd::prelude::*;

verus! {

/// A key of the keyboard. `BackTab` is Shift+Tab; `Other` stands for every
/// key that the interface has no use for.
#[derive(Clone, Copy, Debug, PartialEq, Eq, Structural)]
pub enum Key {
    Esc,
    Enter,
    Tab,
    BackTab,
    Backspace,
    Up,
    Down,
    Char(char),
    Other,
}

/// One event of a key: which key, whether Control was held, and whether the
/// key went down (rather than up or into repeat).
#[derive(Clone, Copy, Debug, PartialEq, Eq, Structural)]
pub struct KeyInput {
    pub key: Key,
    pub control: bool,
    pub pressed: bool,
}

/// One event of the terminal. Everything that is no key event is `Other`.
#[derive(Clone, Copy, Debug, PartialEq, Eq, Structural)]
pub enum Input {
    Key(KeyInput),
    Other,
}

impl Input {
    /// The event of `key` going down with Control not held.
    pub open spec fn pressing(key: Key) -> Input {
        Input::Key(KeyInput { key, control: false, pressed: true })
    }

    /// The event of `key` going down with Control not held.
    pub fn press(key: Key) -> (input: Input)
        ensures
            input == Input::pressing(key),
    {
        Input::Key(KeyInput { key, control: false, pressed: true })
    }

    /// The event is Control+C going down.
    pub open spec fn is_interrupt(self) -> bool {
        self matches Input::Key(input) && input.pressed && input.control && input.key == Key::Char(
            'c',
        )
    }

    /// The key that the event hands to the interface: the key of a key event
    /// that went down. Every other event is dropped.
    pub open spec fn routed_key(self) -> Option<Key> {
        match self {
            Input::Key(input) if input.pressed => Some(input.key),
            _ => None,
        }
    }
}

} // verus!
