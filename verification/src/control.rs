//! The control system and its message vocabulary.

use vstd::prelude::*;

use crate::window_id::WindowId;

verus! {

/// Which mouse button an input event speaks of.
#[derive(Clone, Copy, Debug, PartialEq, Eq, Structural)]
pub enum MouseButton {
    Left,
    Right,
    Middle,
    Other(u8),
}

/// Intents forwarded to the control system: pointer movement, button and
/// directional-key presses (with their pressed/released state), and window
/// resizes with the new dimensions.
#[derive(Clone, Copy, Debug, PartialEq, Eq, Structural)]
pub enum ToControl {
    MouseMoved(u32, u32),
    MouseInput(bool, MouseButton),
    Right(bool),
    Left(bool),
    Up(bool),
    Down(bool),
    Resize(u32, u32),
}

/// Notices the control system sends back; a resize acknowledgement is the
/// only one.
#[derive(Clone, Copy, Debug, PartialEq, Eq, Structural)]
pub enum FromControl {
    Resize,
}

/// A `ToControl` tagged with the window it came from.
pub type WindowedToControl = (WindowId, ToControl);

/// A `FromControl` tagged with the window it concerns.
pub type WindowedFromControl = (WindowId, FromControl);

/// The control system of the per-tick dispatch. It owns no state yet: the
/// design reserves its place in the dispatch, and its run consumes the
/// pending intents without acting on any.
pub struct ControlSystem {}

impl ControlSystem {
    pub fn new() -> (r: ControlSystem) {
        ControlSystem {  }
    }

    /// Consumes the pending intents and answers nothing.
    pub fn run(&mut self, events: &Vec<WindowedToControl>) -> (r: Vec<WindowedFromControl>)
        ensures
            r@ == Seq::<WindowedFromControl>::empty(),
    {
        Vec::new()
    }
}

} // verus!
