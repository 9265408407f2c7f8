//! Protocol engine of a point-to-point TCP throughput benchmark.
//!
//! A server streams one fixed block of random bytes to each client that
//! connects; both ends time the transfer. This crate holds the wire format,
//! the per-connection decisions of both peers and the transfer bookkeeping.
//! It performs no I/O: a driver performs the reads and writes that the state
//! machines ask for and reports back what happened.

pub mod client;
pub mod metrics;
pub mod server;
pub mod session;
pub mod wire;
