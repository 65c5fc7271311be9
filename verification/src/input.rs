//! The events that the host's event loop delivers, as plain values.

use vstd::prelude::*;

verus! {

/// The keys that the library tells apart.
#[derive(Clone, Copy, Debug, PartialEq, Eq, Structural)]
pub enum Key {
    C,
    S,
    T,
    ArrowUp,
    ArrowDown,
    Escape,
    /// Any other key.
    Other,
}

/// What happened to a key.
#[derive(Clone, Copy, Debug, PartialEq, Eq, Structural)]
pub enum KeyAction {
    /// The key went down.
    Pressed,
    /// The key is held down and the host repeats it.
    Repeated,
    /// The key went up.
    Released,
}

/// One event of the window.
#[derive(Clone, Copy, Debug, PartialEq, Eq, Structural)]
pub enum InputEvent {
    Key { key: Key, action: KeyAction },
    /// The window's surface now has this size.
    Resized { width: u32, height: u32 },
    CloseRequested,
    RedrawRequested,
    /// Any other event.
    Other,
}

} // verus!
