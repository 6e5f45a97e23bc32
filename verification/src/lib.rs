//! The decision core of a transparent TCP/UDP forwarder.
//!
//! Every rule the forwarder follows lives here as a function from plain
//! values to plain values, with a contract that Verus proves: which
//! capabilities the process must hold, how a configuration becomes a pair
//! of lookup tables, when a datagram is admitted or dropped, which step a
//! relay takes after each socket operation, and how the workers react to
//! the control actions that signals and failures publish. Sockets, signals
//! and the task runtime are driven by the program around this library,
//! which performs the step a function returns and hands back what happened.

pub mod action;
pub mod addr;
pub mod caps;
pub mod config;
pub mod forwarder;
pub mod log;
pub mod parse;
pub mod recv;
pub mod relay;
pub mod signals;
pub mod socket;
pub mod startup;
pub mod supervisor;
pub mod tcp;
pub mod text;
pub mod udp;

use vstd::prelude::*;

verus! {

/// Upper bound on UDP relays in flight at once, and the TCP listen backlog.
pub const CONN_BACKLOG: u32 = 100;

/// Size in bytes of every receive buffer, for datagrams and for streams.
pub const BUFFER_SIZE: usize = 4096;

/// Seconds a relay waits for its upstream at each step that can stall.
pub const CONN_TIMEOUT_SECS: u64 = 2;

/// Seconds a forwarder waits for its relays once it stops taking work.
pub const DRAIN_SECS: u64 = 5;

} // verus!
