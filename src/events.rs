use vstd::prelude::*;

verus! {

/// How long the event loop waits for a key before it redraws, in milliseconds.
pub const POLL_TIMEOUT_MS: u64 = 100;

/// The settings of the loop that feeds key events to the application.
pub struct EventHandler {
    pub poll_timeout_ms: u64,
}

impl EventHandler {
    pub fn new() -> (r: EventHandler)
        ensures
            r.poll_timeout_ms == POLL_TIMEOUT_MS,
    {
        EventHandler { poll_timeout_ms: POLL_TIMEOUT_MS }
    }
}

impl Default for EventHandler {
    fn default() -> (r: EventHandler)
        ensures
            r.poll_timeout_ms == POLL_TIMEOUT_MS,
    {
        EventHandler::new()
    }
}

} // verus!
