//! Recording-session lifecycle controller for a push-to-record,
//! transcribe, type-into-focused-window desktop utility.
//!
//! The library owns the session state machine: at most one recording
//! session is active at a time, a stop hands the worker handle to
//! exactly one caller, and the worker's JSON result protocol is decoded
//! into a transcription exactly once per session.

pub mod controller;
pub mod discovery;
pub mod errors;
pub mod protocol;
pub mod session;
