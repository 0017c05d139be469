//! Terminal control and input-event layer of a full-screen character-grid editor.
//!
//! The library holds the decisions of the terminal layer: which escape
//! sequences put the terminal into a mode and back, how a control sequence
//! reported by the terminal turns into an event, and how the session reacts to
//! each job-control and termination signal. The executable performs the I/O.
pub mod brush;
pub mod dialog;
pub mod grid;
pub mod import;
pub mod sketch;
pub mod terminal;
pub mod text;
