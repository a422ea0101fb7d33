//! The screen capture engine for Linux: the rules by which a PipeWire video
//! stream is negotiated, its buffers become frames, and a capturer is started
//! and stopped.
//!
//! The library decides; the program around it talks to PipeWire and D-Bus,
//! hands in what it got from them as plain values, and does what it is told.
pub mod capturer;
pub mod channel;
pub mod control;
pub mod format;
pub mod frame;
pub mod laws;
pub mod negotiation;
pub mod process;
pub mod promises;
pub mod worker;
