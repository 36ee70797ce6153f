//! A broadcast broker for opaque binary frames.
//!
//! Producers push frames tagged with a stream identifier; every subscriber of
//! that identifier receives the frames published after it attached. The
//! registry maps each identifier to exactly one distribution channel, and the
//! connection modules decide, message by message, what a producer or consumer
//! connection does next.

pub mod channel;
pub mod connection;
pub mod frame;
pub mod outcome;
pub mod registry;
pub mod snapshot;
