//! The messages exchanged between the host and the viewer process. Each is
//! encoded as one JSON object per line (see `wire`): `{"type":"log",
//! "message":..}`, `{"type":"clear"}`, `{"type":"close"}` from the host and
//! `{"type":"state","paused":..}` from the viewer.
use vstd::prelude::*;

verus! {

/// Messages from the host to the viewer.
#[derive(Debug, Clone)]
pub enum FromParent {
    /// Append a message line to the viewer's display.
    Log { message: String },
    /// Drop all displayed messages.
    Clear,
    /// Ask the viewer to exit gracefully. The viewer also exits when its
    /// input reaches its end (the host process died).
    Close,
}

/// Messages from the viewer back to the host.
#[derive(Debug, Clone)]
pub enum FromChild {
    /// The pause state changed. Pause is entered and left only by the user
    /// pressing the global grab hotkey.
    State { paused: bool },
}

} // verus!
