//! Socket addresses as plain values.
use vstd::prelude::*;

verus! {

/// An IP address: four octets for IPv4, sixteen for IPv6.
#[derive(Clone, Copy, Debug, PartialEq, Eq)]
pub enum IpAddress {
    V4([u8; 4]),
    V6([u8; 16]),
}

/// An IP address and a port.
#[derive(Clone, Copy, Debug, PartialEq, Eq)]
pub struct SocketAddress {
    pub ip: IpAddress,
    pub port: u16,
}

/// The IPv4 address `0.0.0.0`, which listens on every interface.
pub open spec fn spec_unspecified_v4() -> IpAddress {
    IpAddress::V4([0u8, 0u8, 0u8, 0u8])
}

impl IpAddress {
    /// The IPv4 address `0.0.0.0`.
    pub fn unspecified_v4() -> (r: IpAddress)
        ensures
            r == spec_unspecified_v4(),
    {
        IpAddress::V4([0u8, 0u8, 0u8, 0u8])
    }
}

} // verus!
