//! Core of a push-to-talk transcription daemon.
//!
//! The daemon captures microphone audio into a bounded buffer, accumulates a
//! recorded segment while a session is open, safety-limits the session length,
//! and on stop hands the segment to a transcription backend, returning the
//! text to whichever client is waiting.
//!
//! This crate holds the verified core: the recording-session state machine
//! with its command/response protocol, the bounded sample hand-off buffer,
//! the line-oriented command grammar, and the configuration-reload rules.
//! Audio capture, socket I/O and the speech-recognition backend are outside
//! collaborators; the daemon binary drives them and feeds their results back
//! into the state machine as plain values.

pub mod buffer;
pub mod client;
pub mod config;
pub mod models;
pub mod protocol;
pub mod session;
pub mod text;
pub mod transcript;

pub use models::get_global_models_dir;
