//! Translation of pumped window events into protocol decisions.
//!
//! The window/event collaborator delivers raw events; the core forwards a
//! fixed subset — a close request or the escape key ends the process,
//! directional keys become movement intents with their pressed state,
//! pointer events and resizes are forwarded — and ignores the rest.

use vstd::prelude::*;

use crate::control::{MouseButton, ToControl};

verus! {

/// A key the event layer tells apart.
#[derive(Clone, Copy, Debug, PartialEq, Eq, Structural)]
pub enum Key {
    Escape,
    Left,
    Right,
    Up,
    Down,
    Other(u32),
}

/// One raw event from the window/event collaborator, reduced to plain
/// values.
#[derive(Clone, Copy, Debug, PartialEq, Eq, Structural)]
pub enum InputEvent {
    /// The window's close control was used.
    CloseRequested,
    KeyDown(Key),
    KeyUp(Key),
    MouseMoved(u32, u32),
    MouseInput(bool, MouseButton),
    Resized(u32, u32),
    /// Anything the core ignores.
    Other,
}

/// Whether one event ends the process: a close request or the escape key.
pub open spec fn is_terminal(e: InputEvent) -> bool {
    ||| e is CloseRequested
    ||| e matches InputEvent::KeyDown(k) && k is Escape
}

/// The control intent one event carries, if any.
pub open spec fn intent_of(e: InputEvent) -> Option<ToControl> {
    match e {
        InputEvent::KeyDown(Key::Left) => Some(ToControl::Left(true)),
        InputEvent::KeyUp(Key::Left) => Some(ToControl::Left(false)),
        InputEvent::KeyDown(Key::Right) => Some(ToControl::Right(true)),
        InputEvent::KeyUp(Key::Right) => Some(ToControl::Right(false)),
        InputEvent::KeyDown(Key::Up) => Some(ToControl::Up(true)),
        InputEvent::KeyUp(Key::Up) => Some(ToControl::Up(false)),
        InputEvent::KeyDown(Key::Down) => Some(ToControl::Down(true)),
        InputEvent::KeyUp(Key::Down) => Some(ToControl::Down(false)),
        InputEvent::MouseMoved(x, y) => Some(ToControl::MouseMoved(x, y)),
        InputEvent::MouseInput(pressed, button) => Some(ToControl::MouseInput(pressed, button)),
        InputEvent::Resized(width, height) => Some(ToControl::Resize(width, height)),
        _ => None,
    }
}

/// The control intents of the first `n` events, in event order.
pub open spec fn intents_upto(events: Seq<InputEvent>, n: int) -> Seq<ToControl>
    decreases n,
{
    if n <= 0 {
        Seq::empty()
    } else {
        let rest = intents_upto(events, n - 1);
        match intent_of(events[n - 1]) {
            Some(c) => rest.push(c),
            None => rest,
        }
    }
}

/// The control intents of a batch of events, in event order.
pub open spec fn intents(events: Seq<InputEvent>) -> Seq<ToControl> {
    intents_upto(events, events.len() as int)
}

/// Whether any event of the batch ends the process.
pub open spec fn any_terminal(events: Seq<InputEvent>) -> bool {
    exists|i: int| 0 <= i < events.len() && is_terminal(#[trigger] events[i])
}

fn is_terminal_event(e: &InputEvent) -> (r: bool)
    ensures
        r == is_terminal(*e),
{
    match e {
        InputEvent::CloseRequested => true,
        InputEvent::KeyDown(Key::Escape) => true,
        _ => false,
    }
}

fn intent_of_event(e: &InputEvent) -> (r: Option<ToControl>)
    ensures
        r == intent_of(*e),
{
    match e {
        InputEvent::KeyDown(Key::Left) => Some(ToControl::Left(true)),
        InputEvent::KeyUp(Key::Left) => Some(ToControl::Left(false)),
        InputEvent::KeyDown(Key::Right) => Some(ToControl::Right(true)),
        InputEvent::KeyUp(Key::Right) => Some(ToControl::Right(false)),
        InputEvent::KeyDown(Key::Up) => Some(ToControl::Up(true)),
        InputEvent::KeyUp(Key::Up) => Some(ToControl::Up(false)),
        InputEvent::KeyDown(Key::Down) => Some(ToControl::Down(true)),
        InputEvent::KeyUp(Key::Down) => Some(ToControl::Down(false)),
        InputEvent::MouseMoved(x, y) => Some(ToControl::MouseMoved(*x, *y)),
        InputEvent::MouseInput(pressed, button) => Some(ToControl::MouseInput(*pressed, *button)),
        InputEvent::Resized(width, height) => Some(ToControl::Resize(*width, *height)),
        _ => None,
    }
}

/// Scans one batch of pumped events: reports whether a close or escape was
/// observed, and the control intents of the batch in their order.
pub fn handle_events(events: &Vec<InputEvent>) -> (r: (bool, Vec<ToControl>))
    ensures
        r.0 == any_terminal(events@),
        r.1@ == intents(events@),
{
    let n = events.len();
    let mut term = false;
    let mut out: Vec<ToControl> = Vec::new();
    let mut i: usize = 0;
    while i < n
        invariant
            n == events@.len(),
            i <= n,
            term == (exists|j: int| 0 <= j < i && is_terminal(#[trigger] events@[j])),
            out@ == intents_upto(events@, i as int),
        decreases n - i,
    {
        let e = &events[i];
        if is_terminal_event(e) {
            term = true;
        }
        if let Some(c) = intent_of_event(e) {
            out.push(c);
        }
        proof {
            if term && !(exists|j: int| 0 <= j < i && is_terminal(#[trigger] events@[j])) {
                assert(is_terminal(events@[i as int]));
            }
        }
        i = i + 1;
    }
    (term, out)
}

} // verus!
