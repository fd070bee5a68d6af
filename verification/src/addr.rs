//! Socket addresses as plain values.
//!
//! An address is held as the number that its bytes spell in network order, so
//! that the ranges the link layer cares about (loopback, multicast, wildcard)
//! are intervals.

use vstd::prelude::*;

verus! {

/// An IPv4 or IPv6 address.
#[derive(Clone, Copy, Debug, PartialEq, Eq, Structural)]
pub enum IpAddress {
    /// The four octets, most significant first.
    V4(u32),
    /// The sixteen octets, most significant first.
    V6(u128),
}

/// An IP address with a port.
#[derive(Clone, Copy, Debug, PartialEq, Eq, Structural)]
pub struct SocketAddress {
    pub ip: IpAddress,
    pub port: u16,
}

/// The number spelled by four octets, most significant first.
pub open spec fn octets_value(a: u8, b: u8, c: u8, d: u8) -> int {
    a as int * 0x100_0000 + b as int * 0x1_0000 + c as int * 0x100 + d as int
}

impl IpAddress {
    /// Whether this is the wildcard address of its family (`0.0.0.0` or `::`).
    pub open spec fn spec_is_unspecified(self) -> bool {
        match self {
            IpAddress::V4(bits) => bits == 0,
            IpAddress::V6(bits) => bits == 0,
        }
    }

    /// Whether this is a loopback address (`127.0.0.0/8` or `::1`).
    pub open spec fn spec_is_loopback(self) -> bool {
        match self {
            IpAddress::V4(bits) => 0x7f00_0000 <= bits <= 0x7fff_ffff,
            IpAddress::V6(bits) => bits == 1,
        }
    }

    /// Whether this is a multicast address (`224.0.0.0/4` or `ff00::/8`).
    pub open spec fn spec_is_multicast(self) -> bool {
        match self {
            IpAddress::V4(bits) => 0xe000_0000 <= bits <= 0xefff_ffff,
            IpAddress::V6(bits) => bits >= 0xff00_0000_0000_0000_0000_0000_0000_0000,
        }
    }

    pub open spec fn spec_is_ipv4(self) -> bool {
        self is V4
    }

    /// The IPv4 address `a.b.c.d`.
    pub fn v4(a: u8, b: u8, c: u8, d: u8) -> (ip: IpAddress)
        ensures
            ip == IpAddress::V4(octets_value(a, b, c, d) as u32),
            0 <= octets_value(a, b, c, d) <= u32::MAX,
    {
        let bits: u32 = (a as u32) * 0x100_0000 + (b as u32) * 0x1_0000 + (c as u32) * 0x100 + (
        d as u32);
        IpAddress::V4(bits)
    }

    /// The IPv4 wildcard `0.0.0.0`.
    pub fn unspecified_v4() -> (ip: IpAddress)
        ensures
            ip == IpAddress::V4(0),
    {
        IpAddress::V4(0)
    }

    /// The IPv6 wildcard `::`.
    pub fn unspecified_v6() -> (ip: IpAddress)
        ensures
            ip == IpAddress::V6(0),
    {
        IpAddress::V6(0)
    }

    pub fn is_unspecified(&self) -> (r: bool)
        ensures
            r == self.spec_is_unspecified(),
    {
        match self {
            IpAddress::V4(bits) => *bits == 0,
            IpAddress::V6(bits) => *bits == 0,
        }
    }

    pub fn is_loopback(&self) -> (r: bool)
        ensures
            r == self.spec_is_loopback(),
    {
        match self {
            IpAddress::V4(bits) => 0x7f00_0000 <= *bits && *bits <= 0x7fff_ffff,
            IpAddress::V6(bits) => *bits == 1,
        }
    }

    pub fn is_multicast(&self) -> (r: bool)
        ensures
            r == self.spec_is_multicast(),
    {
        match self {
            IpAddress::V4(bits) => 0xe000_0000 <= *bits && *bits <= 0xefff_ffff,
            IpAddress::V6(bits) => *bits >= 0xff00_0000_0000_0000_0000_0000_0000_0000,
        }
    }

    pub fn is_ipv4(&self) -> (r: bool)
        ensures
            r == self.spec_is_ipv4(),
    {
        match self {
            IpAddress::V4(_) => true,
            IpAddress::V6(_) => false,
        }
    }

    pub fn is_ipv6(&self) -> (r: bool)
        ensures
            r == !self.spec_is_ipv4(),
    {
        !self.is_ipv4()
    }
}

impl SocketAddress {
    pub fn new(ip: IpAddress, port: u16) -> (addr: SocketAddress)
        ensures
            addr == (SocketAddress { ip, port }),
    {
        SocketAddress { ip, port }
    }

    /// The address on which an initiator binds before it connects to `peer`:
    /// the wildcard of `peer`'s family, with a port left to the system.
    pub open spec fn spec_ephemeral_for(peer: SocketAddress) -> SocketAddress {
        match peer.ip {
            IpAddress::V4(_) => SocketAddress { ip: IpAddress::V4(0), port: 0 },
            IpAddress::V6(_) => SocketAddress { ip: IpAddress::V6(0), port: 0 },
        }
    }

    pub fn ephemeral_for(peer: &SocketAddress) -> (addr: SocketAddress)
        ensures
            addr == Self::spec_ephemeral_for(*peer),
    {
        if peer.ip.is_ipv4() {
            SocketAddress { ip: IpAddress::unspecified_v4(), port: 0 }
        } else {
            SocketAddress { ip: IpAddress::unspecified_v6(), port: 0 }
        }
    }
}

} // verus!
