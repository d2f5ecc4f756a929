//! Verified core of a live host-status server: the snapshot data model with
//! its derived fields, the coalescing single-slot stream hub, the certificate
//! resolver's search order, the shutdown coordinator's state machine, the
//! connection registry, and the wire formats for the streaming endpoint.
//!
//! All I/O (host probes, sockets, TLS loading, signals, timers) lives outside
//! this crate; it hands plain values in and carries plain values out.

pub mod arith;
pub mod certs;
pub mod config;
pub mod hub;
pub mod lifecycle;
pub mod sampler;
pub mod shutdown;
pub mod snapshot;
pub mod stream;
pub mod text;
