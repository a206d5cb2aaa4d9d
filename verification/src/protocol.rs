//! The multiplex wire header.
//!
//! Every bonded channel a tunnel client opens begins with exactly two
//! bytes: the destination port, unsigned, big-endian.  Nothing else is
//! framed; after the header the channel is a transparent byte pipe.

use vstd::prelude::*;

verus! {

use vstd::arithmetic::div_mod::lemma_fundamental_div_mod;

/// High byte of the big-endian header for `port`.
pub open spec fn port_hi(port: u16) -> u8 {
    (port / 256) as u8
}

/// Low byte of the big-endian header for `port`.
pub open spec fn port_lo(port: u16) -> u8 {
    (port % 256) as u8
}

/// The two header bytes a client sends for `port`.
pub open spec fn encoded(port: u16) -> Seq<u8> {
    seq![port_hi(port), port_lo(port)]
}

/// The port named by the header bytes `hi`, `lo`.
pub open spec fn port_of(hi: u8, lo: u8) -> u16 {
    (hi * 256 + lo) as u16
}

/// Encodes `port` as the two-byte big-endian multiplex header.
pub fn encode_port(port: u16) -> (r: Vec<u8>)
    ensures
        r@ == encoded(port),
{
    let hi: u8 = (port / 256) as u8;
    let lo: u8 = (port % 256) as u8;
    let mut r: Vec<u8> = Vec::new();
    r.push(hi);
    r.push(lo);
    proof {
        assert(r@ =~= encoded(port));
    }
    r
}

/// Decodes the two header bytes back into the destination port.
pub fn decode_port(hi: u8, lo: u8) -> (r: u16)
    ensures
        r == port_of(hi, lo),
{
    (hi as u16) * 256 + (lo as u16)
}

/// Decoding the header a client encodes yields the port the client
/// asked for: the two-byte big-endian header is lossless over the whole
/// port range.
pub proof fn lemma_header_round_trip(port: u16)
    ensures
        encoded(port).len() == 2,
        port_of(port_hi(port), port_lo(port)) == port,
{
    lemma_fundamental_div_mod(port as int, 256);
}

} // verus!
