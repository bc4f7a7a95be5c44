//! The button press state machine: two states, up and down.
//!
//! Pointer-down arms the button when the pointer lands on it; pointer-up
//! fires a press whenever the button was armed, wherever the pointer sits by
//! then, and always disarms it. Pressing enter on a focused button fires a
//! press directly and touches no state.

use vstd::prelude::*;

use crate::editor::KeyAction;

verus! {

/// A push button: `down` is whether a pointer press is currently armed on
/// it.
pub struct Button {
    down: bool,
}

impl Button {
    /// Whether the button is currently armed by a pointer press.
    pub closed spec fn is_down(&self) -> bool {
        self.down
    }

    /// A fresh button, up.
    pub fn new() -> (r: Self)
        ensures
            !r.is_down(),
    {
        Button { down: false }
    }

    /// A key routed to a focused button: enter fires a press; every other
    /// key does nothing. The armed state never changes.
    pub fn on_key(&self, action: KeyAction) -> (press: bool)
        ensures
            press == (action is Enter),
    {
        match action {
            KeyAction::Enter => true,
            _ => false,
        }
    }

    /// Pointer-down: arms the button when the pointer lands on it
    /// (`on_element`), and otherwise leaves it as it was.
    pub fn on_pointer_down(&mut self, on_element: bool)
        ensures
            final(self).is_down() == (old(self).is_down() || on_element),
    {
        if on_element {
            self.down = true;
        }
    }

    /// Pointer-up: fires a press exactly when the button was armed,
    /// regardless of where the pointer is by now, and always returns the
    /// button to up.
    pub fn on_pointer_up(&mut self) -> (press: bool)
        ensures
            !final(self).is_down(),
            press == old(self).is_down(),
    {
        let was_down = self.down;
        self.down = false;
        was_down
    }
}

} // verus!
