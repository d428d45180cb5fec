//! Duplex audio routing engine: device resolution, stream-rate negotiation,
//! a fixed-point per-sample processor chain, and the bounded handoff queue
//! that moves processed blocks from a capture callback to a render callback.

pub mod audio_io;
pub mod config;
pub mod processor;
pub mod route;
pub mod substr;
