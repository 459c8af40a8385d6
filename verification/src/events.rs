//! Decisions the render loop takes on window and input events: when to exit
//! and when to ask for a redraw. The front end translates the window system's
//! events into [`InputEvent`] values and obeys the verdicts.

use vstd::prelude::*;

verus! {

/// A window or input event, reduced to what the loop's decisions read.
#[derive(Clone, Copy, PartialEq, Eq, Structural, Debug)]
pub enum InputEvent {
    /// The user asked to close the window.
    CloseRequested,
    /// A key went down; `escape` says whether it was the quit key.
    KeyPressed { escape: bool },
    /// Anything else the window system reports.
    Other,
}

/// Whether the event ends the loop: a close request or the quit key. The
/// loop must then drain the device before any teardown.
pub fn should_exit(event: &InputEvent) -> (r: bool)
    ensures
        r <==> (event == InputEvent::CloseRequested || event == (InputEvent::KeyPressed {
            escape: true,
        })),
{
    match event {
        InputEvent::CloseRequested => true,
        InputEvent::KeyPressed { escape } => *escape,
        InputEvent::Other => false,
    }
}

/// Whether to request a redraw once the event queue is drained: only while
/// the window has a drawable surface (a zero-sized window has none).
pub fn should_request_redraw(width: u32, height: u32) -> (r: bool)
    ensures
        r <==> (width != 0 && height != 0),
{
    width != 0 && height != 0
}

} // verus!
