//! Peer session manager for a proof-of-work compute worker.
//!
//! The library holds the verified core of a persistent network client that
//! connects a solver to a remote coordinator node: the handshake state
//! machine, the message-routing decisions, the puzzle ticker's gating rule,
//! the bounded outbound queue, and the reconnect policy. The surrounding
//! I/O (sockets, timers, HTTP telemetry) lives outside the library and
//! drives these functions with plain values.

use vstd::prelude::*;

pub mod bytes;
pub mod entropy;
pub mod laws;
pub mod message;
pub mod queue;
pub mod session;
pub mod supervisor;
pub mod ticker;

verus! {

/// Fixed delay, in seconds, between connection attempts and after a failed
/// session, before the next attempt.
pub const RETRY_COOLDOWN_SECS: u64 = 5;

/// Bound, in seconds, on how long one connection attempt may take.
pub const CONNECT_TIMEOUT_SECS: u64 = 5;

/// Interval, in seconds, between firings of the puzzle ticker: one
/// anchor-time period of the network.
pub const TICK_INTERVAL_SECS: u64 = 25;

/// Capacity of the outbound message queue.
pub const OUTBOUND_CAPACITY: usize = 1024;

/// Protocol version this client speaks.
pub const MESSAGE_VERSION: u32 = 12;

/// Port advertised in the handshake as the local listener.
pub const LISTENER_PORT: u16 = 4140;

} // verus!
