//! Sinks: where the messages of a batch are delivered to.
//!
//! A sink builds what goes over the wire and judges what comes back. The wire
//! itself is the caller's: it is handed in as a function.

pub mod kafka;
pub mod wamserver;
