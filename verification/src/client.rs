//! The tunnel client role: the port forward manager's decisions.
//!
//! For each configured port mapping the client binds local listeners,
//! accepts unboundedly many local connections, and for each one opens a
//! fresh bonded channel, sends the two-byte multiplex header, and hands
//! the split halves to two forwarders.  The decisions made along the
//! way — which mapping a pair describes, which address families to
//! bind, which addresses to listen on, how a connection is labelled —
//! are functions here; the sockets and tasks around them are not part
//! of the library.

use vstd::prelude::*;

verus! {

use crate::text::dec_digits;

/// The tunnel client's startup configuration.
pub struct ClientCli {
    /// Bind IPv4 listeners only.
    pub ipv4: bool,
    /// Bind IPv6 listeners only.
    pub ipv6: bool,
    /// Do not display the link monitor.
    pub no_monitor: bool,
    /// Display all possible links in the link monitor.
    pub all_links: bool,
    /// Ports to forward, as `(server_port, client_port)` pairs.
    pub port: Vec<(u16, u16)>,
    /// Accept connections on all local interfaces, not only loopback.
    pub global: bool,
    /// Exit after handling one connection.
    pub once: bool,
    /// TCP server names or addresses to dial.
    pub tcp: Vec<String>,
}

/// The mapping a configured pair stands for: a server port of `0`
/// means "same as the client port".
pub open spec fn effective_pair(pair: (u16, u16)) -> (u16, u16) {
    if pair.0 == 0 {
        (pair.1, pair.1)
    } else {
        pair
    }
}

/// Which IP families the client may dial with.
#[derive(Clone, Copy, Debug, PartialEq, Eq, Structural)]
pub enum IpVersion {
    /// IPv4 only.
    V4,
    /// IPv6 only.
    V6,
    /// Either family.
    Both,
}

/// Which local listeners one mapping binds: zero, one or two address
/// families, on loopback or on all interfaces.
#[derive(Clone, Copy, Debug, PartialEq, Eq, Structural)]
pub struct ListenPlan {
    /// Bind an IPv4 listener.
    pub bind_v4: bool,
    /// Bind an IPv6 listener.
    pub bind_v6: bool,
    /// Listen on all interfaces instead of loopback only.
    pub all_interfaces: bool,
}

impl ClientCli {
    /// The mappings the configuration stands for, in order: each pair
    /// with a server port of `0` collapses to the client port on both
    /// sides.
    pub fn effective_ports(&self) -> (r: Vec<(u16, u16)>)
        ensures
            r@.len() == self.port@.len(),
            forall|i: int| 0 <= i < r@.len() ==> r@[i] == effective_pair(#[trigger] self.port@[i]),
    {
        let mut r: Vec<(u16, u16)> = Vec::new();
        let n = self.port.len();
        let mut i: usize = 0;
        while i < n
            invariant
                0 <= i <= n,
                n == self.port@.len(),
                r@.len() == i,
                forall|j: int| 0 <= j < i ==> r@[j] == effective_pair(#[trigger] self.port@[j]),
            decreases n - i,
        {
            let (server_port, client_port) = self.port[i];
            if server_port == 0 {
                r.push((client_port, client_port));
            } else {
                r.push((server_port, client_port));
            }
            i += 1;
        }
        r
    }

    /// The IP family restriction the two flags ask for; both at once
    /// ask for the impossible and select nothing.
    pub fn ip_version(&self) -> (r: Option<IpVersion>)
        ensures
            r == (if self.ipv4 && self.ipv6 {
                None
            } else if self.ipv4 {
                Some(IpVersion::V4)
            } else if self.ipv6 {
                Some(IpVersion::V6)
            } else {
                Some(IpVersion::Both)
            }),
    {
        if self.ipv4 && self.ipv6 {
            None
        } else if self.ipv4 {
            Some(IpVersion::V4)
        } else if self.ipv6 {
            Some(IpVersion::V6)
        } else {
            Some(IpVersion::Both)
        }
    }

    /// Which listeners each mapping binds: each family unless the
    /// other was asked for alone, on all interfaces exactly when the
    /// configuration says so.
    pub fn listen_plan(&self) -> (r: ListenPlan)
        ensures
            r.bind_v4 == (self.ipv4 || !self.ipv6),
            r.bind_v6 == (self.ipv6 || !self.ipv4),
            r.all_interfaces == self.global,
    {
        ListenPlan {
            bind_v4: self.ipv4 || !self.ipv6,
            bind_v6: self.ipv6 || !self.ipv4,
            all_interfaces: self.global,
        }
    }
}

/// The label a monitoring consumer sees for one client connection:
/// the connection's source address, then the mapping it uses, written
/// `server_port->client_port`.
pub open spec fn connection_label(src: Seq<char>, server_port: u16, client_port: u16) -> Seq<
    char,
> {
    src + ": "@ + dec_digits(server_port as nat) + "->"@ + dec_digits(client_port as nat)
}

/// Writes the label for one client connection.
pub fn connection_label_text(src: &str, server_port: u16, client_port: u16) -> (r: String)
    ensures
        r@ == connection_label(src@, server_port, client_port),
{
    let mut r = String::from_str(src);
    r.append(": ");
    r.append(crate::text::u16_to_dec(server_port).as_str());
    r.append("->");
    r.append(crate::text::u16_to_dec(client_port).as_str());
    r
}

} // verus!
