//! Input events as the loop sees them, and the decision to terminate: an
//! explicit quit signal or the Escape key ends the program.

use vstd::prelude::*;

verus! {

/// The keys the demo distinguishes: Escape terminates it, every other key is
/// ignored.
#[derive(Clone, Copy, PartialEq, Eq, Structural, Debug)]
pub enum KeyCode {
    Escape,
    Other,
}

/// One input event, drained from the window system at the start of an
/// iteration.
#[derive(Clone, Copy, PartialEq, Eq, Structural, Debug)]
pub enum InputEvent {
    /// An explicit quit signal, such as closing the window.
    Quit,
    /// A key was pressed.
    KeyDown(KeyCode),
    /// Any other event: ignored.
    Other,
}

/// True exactly for the events that terminate the program.
pub open spec fn is_quit_event(event: InputEvent) -> bool {
    match event {
        InputEvent::Quit => true,
        InputEvent::KeyDown(key) => key is Escape,
        InputEvent::Other => false,
    }
}

/// True when some drained event demands termination.
pub open spec fn any_quit(events: Seq<InputEvent>) -> bool {
    exists|i: int| 0 <= i < events.len() && is_quit_event(events[i])
}

/// Whether one event terminates the program.
pub fn is_quit(event: &InputEvent) -> (quit: bool)
    ensures
        quit == is_quit_event(*event),
{
    match event {
        InputEvent::Quit => true,
        InputEvent::KeyDown(KeyCode::Escape) => true,
        _ => false,
    }
}

/// Whether any of the events drained this iteration terminates the program.
pub fn should_quit(events: &Vec<InputEvent>) -> (quit: bool)
    ensures
        quit == any_quit(events@),
{
    let mut k: usize = 0;
    while k < events.len()
        invariant
            k <= events@.len(),
            forall|i: int| 0 <= i < k ==> !is_quit_event(events@[i]),
        decreases events@.len() - k,
    {
        if is_quit(&events[k]) {
            assert(is_quit_event(events@[k as int]));
            return true;
        }
        k = k + 1;
    }
    false
}

} // verus!
