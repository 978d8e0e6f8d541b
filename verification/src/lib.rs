//! Core of a watcher for a sound server's default audio input source.
//!
//! The library holds the verified logic: the source cache, the default-source
//! resolver, the translation of raw notifications into domain events, the
//! listener state machine, and the reporter that decides which line to print
//! when the effective mute state of the default source changes. All I/O with
//! the sound server itself stays outside, in the surrounding application,
//! which hands the results of its requests to these functions as plain values.

pub mod cache;
pub mod connection;
pub mod events;
pub mod laws;
pub mod listener;
pub mod listing;
pub mod report;
pub mod source;
