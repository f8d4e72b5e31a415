//! Dispatch of named tasks to isolated worker contexts.
//!
//! A worker context is reachable only by messages. This crate holds the
//! decisions of the protocol that drives one: the script that the context
//! starts with, the handshake that precedes every task, the guard that keeps
//! one task in flight at most, and the envelopes that cross the channel.
//! The crate performs no I/O: the host spawns the context, posts what the
//! handle hands out and reports back what arrives.

pub mod bootstrap;
pub mod codec;
pub mod error;
pub mod example;
pub mod integer;
pub mod protocol;
pub mod worker;

pub use crate::codec::{Encoding, Payload};
pub use crate::error::WorkerError;
pub use crate::protocol::{Policy, WorkerState};
pub use crate::worker::{Handshake, Startup, WrappedWorker};
