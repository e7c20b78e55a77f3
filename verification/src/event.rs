//! Classification of input events for the edit loop.

use vstd::prelude::*;

verus! {

/// Outcome of handling one input event.
#[derive(Debug, PartialEq, Eq, Structural)]
pub enum EventResult {
    /// Keep running; nothing further to do this cycle.
    Continue,
    /// The user asked to leave the editor.
    Exit,
    /// The editable content may have changed; evaluate a playback tick.
    ContentChanged,
}

/// Decides what the edit loop does with an input event.
pub struct EventHandler;

impl EventHandler {
    /// Default key handling: the escape key exits; any other key is treated
    /// as text input, so the content may have changed.
    pub fn handle_default_key_event(escape_pressed: bool) -> (r: EventResult)
        ensures
            r == if escape_pressed {
                EventResult::Exit
            } else {
                EventResult::ContentChanged
            },
    {
        if escape_pressed {
            EventResult::Exit
        } else {
            EventResult::ContentChanged
        }
    }
}

} // verus!
