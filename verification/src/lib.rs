//! Server-side core of a keyed windowed reduce UDF.
//!
//! A host streams per-record requests into the library for the duration of
//! one time window.  The core validates each request, demultiplexes records
//! to one reducer task per key tuple, forwards the messages the reducers
//! emit, and terminates the outbound stream with a single end-of-window
//! marker.  The asynchronous runtime around this core (channels, spawned
//! reducer tasks, the transport) lives outside the library and drives the
//! state machine defined here.

pub mod window;
pub mod message;
pub mod errors;
pub mod wire;
pub mod outbound;
pub mod engine;
pub mod dispatch;
pub mod server;
