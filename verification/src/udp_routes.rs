//! Where tunnelled datagrams go. On the client, a UDP egress keeps one route to
//! its target per origin that datagrams came from, so that the target's answers
//! return to that origin; on the server, a UDP ingress keeps receiving after the
//! socket errors that only concern one peer.
use vstd::prelude::*;

use crate::frames::v1::{spec_extract_defined, spec_extract_origin, spec_origin_header_len, UdpMessage};
use crate::net::SocketAddress;
use crate::registry::{spec_lookup, Registry};

verus! {

/// The routes of a UDP egress, one per origin.
pub type OriginRoutes<S> = Registry<SocketAddress, S>;

/// Whether a received datagram is long enough for its origin to be read: it is not
/// empty, and holds the whole header that its tag announces.
pub fn origin_header_fits(datagram: &[u8]) -> (r: bool)
    ensures
        r == spec_extract_defined(datagram@),
{
    if datagram.len() == 0 {
        return false;
    }
    let tag = datagram[0];
    let needed: usize = if tag == crate::frames::v1::UDP_IPV4_ORIGIN {
        crate::frames::v1::UDP_HEADER_IPV4_LEN
    } else if tag == crate::frames::v1::UDP_IPV6_ORIGIN {
        crate::frames::v1::UDP_HEADER_IPV6_LEN
    } else {
        1
    };
    datagram.len() >= needed
}

/// Where a datagram received from the tunnel goes.
pub enum DatagramRoute<'a, S> {
    /// The datagram names no known kind of origin: it is dropped.
    Drop,
    /// The origin has a route: the payload goes through `route`.
    Existing { origin: SocketAddress, route: &'a S },
    /// The origin has no route yet: one is opened for it, and the payload goes
    /// through it.
    New { origin: SocketAddress },
}

/// Reads the origin of a datagram received from the tunnel, removes the origin
/// header, and finds the route of that origin.
pub fn route_datagram<'a, S>(routes: &'a OriginRoutes<S>, datagram: &mut Vec<u8>) -> (r: DatagramRoute<'a, S>)
    requires
        routes.well_formed(),
        spec_extract_defined(old(datagram)@),
    ensures
        final(datagram)@ == old(datagram)@.skip(spec_origin_header_len(old(datagram)@[0]) as int),
        match spec_extract_origin(old(datagram)@) {
            None => r is Drop,
            Some(origin) => match spec_lookup(routes@, origin) {
                Some(route) => r matches DatagramRoute::Existing { origin: o, route: s } && o == origin
                    && *s == route,
                None => r matches DatagramRoute::New { origin: o } && o == origin,
            },
        },
{
    match UdpMessage::extract_origin_addr(datagram) {
        None => DatagramRoute::Drop,
        Some(origin) => match routes.get(&origin) {
            Some(route) => DatagramRoute::Existing { origin, route },
            None => DatagramRoute::New { origin },
        },
    }
}

/// Kinds of errors from receiving on a UDP socket.
#[derive(Clone, Copy, Debug, PartialEq, Eq, Structural)]
pub enum ReceiveErrorKind {
    ConnectionReset,
    ConnectionRefused,
    Interrupted,
    Other,
}

/// Whether a UDP ingress keeps receiving after a receive error: yes after a reset
/// or refused connection or an interruption, which only concern one peer; any
/// other error stops the ingress.
pub fn keeps_receiving(kind: ReceiveErrorKind) -> (r: bool)
    ensures
        r == (kind != ReceiveErrorKind::Other),
{
    match kind {
        ReceiveErrorKind::Other => false,
        _ => true,
    }
}

} // verus!
