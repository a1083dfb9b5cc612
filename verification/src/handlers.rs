//! The input interpreters and event subscribers: pure translators from a
//! raw key or mouse event and the current state to a mutated state, a list
//! of follow-up events to publish, and at most one I/O request for the
//! surrounding binary to perform.

pub mod app_state;

pub mod keyboard;


pub mod mouse;
