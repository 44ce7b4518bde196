//! Serial device lifecycle and framing manager.
//!
//! The crate models a fleet of independent serial-port devices: each device is
//! described by an immutable configuration, its byte stream is segmented into
//! discrete messages by a line-terminator rule with a size-based fallback, and
//! a manager tracks the running devices and routes outbound writes. All
//! decisions (validation, framing, the read loop's reaction to each transport
//! event, the running-set bookkeeping) live here and are verified; the calling
//! application supplies the transport I/O, the threads and the event sink.

pub mod config;
pub mod events;
pub mod framer;
pub mod log_config;
pub mod manager;
pub mod runner;
mod text;

