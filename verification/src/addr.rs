//! Socket addresses as plain values.
//!
//! The relay's contracts need to speak about addresses (is the resolved
//! destination the listener itself? which family is the outbound socket?),
//! so addresses are held here as plain integers rather than as an opaque
//! platform type.  The surrounding program converts between this form and
//! whatever the platform API uses.

use vstd::prelude::*;

verus! {

/// An IP address, IPv4 as its four octets, IPv6 as its eight segments.
#[derive(Clone, Copy, PartialEq, Eq, Structural, Debug)]
pub enum IpAddress {
    V4(u8, u8, u8, u8),
    V6(u16, u16, u16, u16, u16, u16, u16, u16),
}

/// An IP address together with a TCP port.
#[derive(Clone, Copy, PartialEq, Eq, Structural, Debug)]
pub struct SocketAddress {
    pub ip: IpAddress,
    pub port: u16,
}

/// The address family the outbound socket must be created with.
#[derive(Clone, Copy, PartialEq, Eq, Structural, Debug)]
pub enum AddrFamily {
    V4,
    V6,
}

impl SocketAddress {
    /// Builds an IPv4 socket address from its octets and port.
    pub fn v4(a: u8, b: u8, c: u8, d: u8, port: u16) -> (r: SocketAddress)
        ensures
            r.ip == IpAddress::V4(a, b, c, d),
            r.port == port,
    {
        SocketAddress { ip: IpAddress::V4(a, b, c, d), port }
    }

    /// The family of this address, deciding the outbound socket's family.
    pub fn family(&self) -> (f: AddrFamily)
        ensures
            f == AddrFamily::V4 <==> self.ip is V4,
            f == AddrFamily::V6 <==> self.ip is V6,
    {
        match self.ip {
            IpAddress::V4(..) => AddrFamily::V4,
            IpAddress::V6(..) => AddrFamily::V6,
        }
    }
}

/// The port carried by two bytes in network order (big endian).
pub open spec fn spec_port_of_be(hi: u8, lo: u8) -> u16 {
    (hi * 256 + lo) as u16
}

/// Decodes a port from its two network-order bytes.
pub fn port_from_be(hi: u8, lo: u8) -> (p: u16)
    ensures
        p == spec_port_of_be(hi, lo),
{
    hi as u16 * 256 + lo as u16
}

/// Decodes the original (pre-redirect) IPv4 destination of a connection
/// from the raw bytes of the kernel's NAT record: the four address octets
/// and the two port bytes, all in network order.
pub fn original_dst_v4(a: u8, b: u8, c: u8, d: u8, port_hi: u8, port_lo: u8) -> (r: SocketAddress)
    ensures
        r.ip == IpAddress::V4(a, b, c, d),
        r.port == spec_port_of_be(port_hi, port_lo),
{
    SocketAddress { ip: IpAddress::V4(a, b, c, d), port: port_from_be(port_hi, port_lo) }
}

} // verus!
