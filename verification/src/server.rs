//! The tunnel server role: the connection router's decisions.
//!
//! The server repeatedly accepts bonded channels from the aggregation
//! service.  For each one it reads exactly two header bytes before
//! anything else; if the channel closes first, the attempt ends
//! silently.  The decoded port selects an entry of the destination
//! table: on a hit the server dials that target and forwards both ways,
//! on a miss it drops the channel without dialing and without answering.

use vstd::prelude::*;

verus! {

use crate::protocol::port_of;
use crate::table::DestinationTable;
use crate::text::dec_digits;

/// The tunnel server's startup configuration.
pub struct ServerCli {
    /// Do not display the link monitor.
    pub no_monitor: bool,
    /// Ports to serve, as `(target, port)` pairs; an empty target
    /// means the same port on the local host.
    pub port: Vec<(String, u16)>,
    /// TCP port to listen on for bonded links, if any.
    pub tcp: Option<u16>,
}

impl ServerCli {
    /// The destination table the configured pairs describe.
    pub fn destination_table(&self) -> (r: DestinationTable)
        ensures
            r@ == crate::table::table_of(self.port@),
    {
        DestinationTable::build(&self.port)
    }
}

/// What the router does with one freshly accepted channel.
#[derive(Debug)]
pub enum RouteDecision {
    /// The header named a served port: dial `target` and forward.
    Dial {
        /// The port the client asked for.
        port: u16,
        /// The address to dial for it.
        target: String,
    },
    /// The header named a port the table does not serve: drop the
    /// channel without dialing and without answering.
    NoEntry {
        /// The port the client asked for.
        port: u16,
    },
    /// The channel closed before two header bytes arrived: end the
    /// attempt silently.
    MissingHeader,
}

/// What routing must decide for a table and the header bytes that
/// arrived: fewer than two bytes end the attempt; otherwise the decoded
/// port selects the table entry to dial, and a port without an entry
/// drops the channel.
pub enum SpecRoute {
    /// Dial this target for this port.
    Dial(u16, Seq<char>),
    /// Drop the channel: the port has no entry.
    NoEntry(u16),
    /// End the attempt: the channel closed before the header arrived.
    MissingHeader,
}

/// The decision the router owes for `table` and `header`.
pub open spec fn spec_route(table: Map<u16, Seq<char>>, header: Seq<u8>) -> SpecRoute {
    if header.len() < 2 {
        SpecRoute::MissingHeader
    } else {
        let p = port_of(header[0], header[1]);
        if table.contains_key(p) {
            SpecRoute::Dial(p, table[p])
        } else {
            SpecRoute::NoEntry(p)
        }
    }
}

/// Whether an executed decision is the one owed.
pub open spec fn route_matches(r: RouteDecision, s: SpecRoute) -> bool {
    match (r, s) {
        (RouteDecision::Dial { port, target }, SpecRoute::Dial(p, t)) => port == p && target@
            == t,
        (RouteDecision::NoEntry { port }, SpecRoute::NoEntry(p)) => port == p,
        (RouteDecision::MissingHeader, SpecRoute::MissingHeader) => true,
        _ => false,
    }
}

/// Routes one accepted channel by the header bytes that arrived before
/// the channel closed.
pub fn route(table: &DestinationTable, header: &Vec<u8>) -> (r: RouteDecision)
    ensures
        route_matches(r, spec_route(table@, header@)),
{
    if header.len() < 2 {
        return RouteDecision::MissingHeader;
    }
    let port = crate::protocol::decode_port(header[0], header[1]);
    match table.lookup(port) {
        Some(target) => RouteDecision::Dial { port, target: target.clone() },
        None => RouteDecision::NoEntry { port },
    }
}

/// A client that opens a channel for `port` writes the two-byte
/// big-endian header; a server that reads those bytes back routes the
/// channel to the table's entry for exactly that port.  For every port:
/// when the table has the entry the channel dials that entry's target,
/// and forwarding then carries every subsequent byte verbatim in both
/// directions; when it does not, nothing is dialed.
pub proof fn lemma_client_header_routes(table: Map<u16, Seq<char>>, port: u16)
    ensures
        table.contains_key(port) ==> spec_route(table, crate::protocol::encoded(port))
            == SpecRoute::Dial(port, table[port]),
        !table.contains_key(port) ==> spec_route(table, crate::protocol::encoded(port))
            == SpecRoute::NoEntry(port),
{
    crate::protocol::lemma_header_round_trip(port);
}

/// The label a monitoring consumer sees for one routed channel:
/// `port -> target`.
pub open spec fn route_label(port: u16, target: Seq<char>) -> Seq<char> {
    dec_digits(port as nat) + " -> "@ + target
}

/// Writes the label for one routed channel.
pub fn route_label_text(port: u16, target: &str) -> (r: String)
    ensures
        r@ == route_label(port, target@),
{
    let mut r = crate::text::u16_to_dec(port);
    r.append(" -> ");
    r.append(target);
    r
}

/// The label republished for a channel once routing settles: the real
/// destination when the header selected one, a placeholder when the
/// channel went away before that.
pub fn channel_label(outcome: Option<(u16, &String)>) -> (r: String)
    ensures
        match outcome {
            Some((port, target)) => r@ == route_label(port, target@),
            None => r@ == "unknown"@,
        },
{
    match outcome {
        Some((port, target)) => route_label_text(port, target.as_str()),
        None => String::from_str("unknown"),
    }
}

} // verus!
