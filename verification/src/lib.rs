//! Trims the leading silence from a single-track Standard MIDI File.
//!
//! The file is decoded, every event before the first note-on is dropped, the
//! note-on itself is moved to tick zero, and the result is encoded again.
pub mod cli;
pub mod codec;
pub mod event;
pub mod filename;
pub mod pipeline;
pub mod trim;
