//! Polling engine that mirrors an editor's state as a rich-presence status.
//!
//! [`xcode_state::XcodeState`] is the engine. It decides when to ask whether
//! the editor is running, when to contact the chat client, what status to
//! publish and how long to pause, and leaves the asking, publishing and
//! pausing to its driver. [`model`] says what each step does; [`laws`] holds
//! what follows for every run.

pub mod backoff;
pub mod cadence;
pub mod language;
pub mod laws;
pub mod model;
pub mod payload;
pub mod protocol;
pub mod session;
pub mod settings;
pub mod xcode_state;
