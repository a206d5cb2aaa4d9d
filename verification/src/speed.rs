//! The throughput-measurement server's startup configuration.
//!
//! The speed test is a simpler, non-multiplexed peer of the tunnel: a
//! client opens one bonded channel and measures raw transfer in each
//! direction.  Only its server-side configuration is part of the
//! library; the measurement itself is I/O from end to end and lives
//! outside it.

use vstd::prelude::*;

verus! {

/// The speed-test server's startup configuration.
pub struct ServerCli {
    /// Listen on each network interface individually.
    pub individual_interfaces: bool,
    /// Do not display the link monitor.
    pub no_monitor: bool,
    /// Exit after handling one connection.
    pub oneshot: bool,
    /// Wrap all links in transport-level encryption.
    pub tls: bool,
    /// TCP port to listen on for bonded links.
    pub tcp: u16,
    /// WebSocket port to listen on for bonded links.
    pub websocket: u16,
}

} // verus!
