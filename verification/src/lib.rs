//! Core logic of a resilient TCP port-tunneling system.
//!
//! One logical connection (a bonded channel provided by an external link
//! aggregation service) carries traffic for arbitrarily many logical
//! destinations.  Every channel a client opens begins with a two-byte
//! multiplex header naming the destination port; the server routes the
//! channel through its destination table and then forwards raw bytes in
//! both directions.
//!
//! This crate holds the verified decision logic of that system: the wire
//! header codec, the destination table, the forwarding policy with its
//! flush batching, the link control plane's disabled-tag state, and the
//! command-line pair parsing.  The I/O that surrounds these decisions
//! (sockets, timers, task spawning, the terminal monitor) lives outside
//! the library.

pub mod client;
pub mod forward;
pub mod links;
pub mod protocol;
pub mod server;
pub mod speed;
pub mod table;
pub mod text;
