//! Core logic of the floating log viewer: the newline-delimited wire
//! framing between the host and the viewer process, the host-side window
//! state machine (spawn, send, pause, close), the viewer-side log and grab
//! state, the grab hotkey, and the location of the viewer executable.
//!
//! Everything that touches a process, a pipe, a lock, a GUI toolkit or JSON
//! encoding lives outside this crate and drives these state machines.

pub mod platform;
pub mod paths;
pub mod wire;
pub mod ipc;
pub mod window;
pub mod viewer;
pub mod hotkey;
