//! The address and family model: value types for IPv4 and IPv6 addresses
//! and socket addresses, canonicalization, and the validation predicates
//! that gate every `bind` and `connect`.
//!
//! The guest protocol forbids dual-stack sockets and the ambiguous
//! IPv4-in-IPv6 encodings; the predicates here reject them early so that
//! behavior is uniform across operating systems.

use vstd::prelude::*;

use crate::error::ErrorCode;

verus! {

/// An IPv4 address as its four octets.
#[derive(Clone, Copy, PartialEq, Eq, Structural, Debug)]
pub struct Ipv4Address {
    pub o0: u8,
    pub o1: u8,
    pub o2: u8,
    pub o3: u8,
}

/// An IPv6 address as its eight 16-bit segments.
#[derive(Clone, Copy, PartialEq, Eq, Structural, Debug)]
pub struct Ipv6Address {
    pub s0: u16,
    pub s1: u16,
    pub s2: u16,
    pub s3: u16,
    pub s4: u16,
    pub s5: u16,
    pub s6: u16,
    pub s7: u16,
}

/// An IP address of either family.
#[derive(Clone, Copy, PartialEq, Eq, Structural, Debug)]
pub enum IpAddress {
    V4(Ipv4Address),
    V6(Ipv6Address),
}

/// An IPv4 socket address.
#[derive(Clone, Copy, PartialEq, Eq, Structural, Debug)]
pub struct Ipv4SocketAddress {
    pub address: Ipv4Address,
    pub port: u16,
}

/// An IPv6 socket address.
#[derive(Clone, Copy, PartialEq, Eq, Structural, Debug)]
pub struct Ipv6SocketAddress {
    pub address: Ipv6Address,
    pub port: u16,
    pub flow_info: u32,
    pub scope_id: u32,
}

/// A socket address of either family.
#[derive(Clone, Copy, PartialEq, Eq, Structural, Debug)]
pub enum IpSocketAddress {
    V4(Ipv4SocketAddress),
    V6(Ipv6SocketAddress),
}

/// The address family of a socket, immutable once the socket is created.
#[derive(Clone, Copy, PartialEq, Eq, Structural, Debug)]
pub enum AddressFamily {
    V4,
    V6,
}

impl Ipv4Address {
    /// `0.0.0.0`.
    pub open spec fn spec_is_unspecified(self) -> bool {
        self.o0 == 0 && self.o1 == 0 && self.o2 == 0 && self.o3 == 0
    }

    /// `224.0.0.0/4`.
    pub open spec fn spec_is_multicast(self) -> bool {
        224 <= self.o0 <= 239
    }

    /// `255.255.255.255`.
    pub open spec fn spec_is_broadcast(self) -> bool {
        self.o0 == 255 && self.o1 == 255 && self.o2 == 255 && self.o3 == 255
    }
}

impl Ipv6Address {
    /// `::`.
    pub open spec fn spec_is_unspecified(self) -> bool {
        self.s0 == 0 && self.s1 == 0 && self.s2 == 0 && self.s3 == 0 && self.s4 == 0 && self.s5
            == 0 && self.s6 == 0 && self.s7 == 0
    }

    /// `::1`.
    pub open spec fn spec_is_loopback(self) -> bool {
        self.s0 == 0 && self.s1 == 0 && self.s2 == 0 && self.s3 == 0 && self.s4 == 0 && self.s5
            == 0 && self.s6 == 0 && self.s7 == 1
    }

    /// `ff00::/8`.
    pub open spec fn spec_is_multicast(self) -> bool {
        self.s0 & 0xff00 == 0xff00
    }

    /// `::ffff:a.b.c.d`, the IPv4-mapped block.
    pub open spec fn spec_is_ipv4_mapped(self) -> bool {
        self.s0 == 0 && self.s1 == 0 && self.s2 == 0 && self.s3 == 0 && self.s4 == 0 && self.s5
            == 0xffff
    }

    /// The IPv4 address that this IPv4-mapped address carries in its low
    /// 32 bits.
    pub open spec fn spec_to_ipv4(self) -> Ipv4Address {
        Ipv4Address {
            o0: (self.s6 >> 8) as u8,
            o1: (self.s6 & 0xff) as u8,
            o2: (self.s7 >> 8) as u8,
            o3: (self.s7 & 0xff) as u8,
        }
    }
}

/// Whether this is a deprecated IPv4-compatible IPv6 address: the high 96
/// bits are zero and the address is neither unspecified nor loopback.
pub open spec fn spec_is_deprecated_ipv4_compatible(a: Ipv6Address) -> bool {
    &&& a.s0 == 0 && a.s1 == 0 && a.s2 == 0 && a.s3 == 0 && a.s4 == 0 && a.s5 == 0
    &&& !a.spec_is_unspecified()
    &&& !a.spec_is_loopback()
}

/// Deprecated IPv4-compatible IPv6 addresses are rejected everywhere: OS
/// handling of them is inconsistent and the validations here do not take
/// them into account.  These are not the IPv4-mapped addresses.
pub fn is_deprecated_ipv4_compatible(a: &Ipv6Address) -> (r: bool)
    ensures
        r == spec_is_deprecated_ipv4_compatible(*a),
{
    a.s0 == 0 && a.s1 == 0 && a.s2 == 0 && a.s3 == 0 && a.s4 == 0 && a.s5 == 0 && !(a.s6 == 0
        && a.s7 == 0) && !(a.s6 == 0 && a.s7 == 1)
}

/// The canonical form of an address: an IPv4-mapped IPv6 address stands
/// for the IPv4 address it carries, everything else stands for itself.
pub open spec fn spec_to_canonical(a: IpAddress) -> IpAddress {
    match a {
        IpAddress::V4(v4) => IpAddress::V4(v4),
        IpAddress::V6(v6) => if v6.spec_is_ipv4_mapped() {
            IpAddress::V4(v6.spec_to_ipv4())
        } else {
            IpAddress::V6(v6)
        },
    }
}

/// Canonicalize an address: an IPv4-mapped IPv6 address becomes the IPv4
/// address it carries.
pub fn to_canonical(a: &IpAddress) -> (r: IpAddress)
    ensures
        r == spec_to_canonical(*a),
{
    match a {
        IpAddress::V4(v4) => IpAddress::V4(*v4),
        IpAddress::V6(v6) => {
            if v6.s0 == 0 && v6.s1 == 0 && v6.s2 == 0 && v6.s3 == 0 && v6.s4 == 0 && v6.s5
                == 0xffff {
                IpAddress::V4(
                    Ipv4Address {
                        o0: (v6.s6 >> 8) as u8,
                        o1: (v6.s6 & 0xff) as u8,
                        o2: (v6.s7 >> 8) as u8,
                        o3: (v6.s7 & 0xff) as u8,
                    },
                )
            } else {
                IpAddress::V6(*v6)
            }
        },
    }
}

impl IpSocketAddress {
    /// The IP address of a socket address.
    pub open spec fn spec_ip(self) -> IpAddress {
        match self {
            IpSocketAddress::V4(a) => IpAddress::V4(a.address),
            IpSocketAddress::V6(a) => IpAddress::V6(a.address),
        }
    }

    /// The port of a socket address.
    pub open spec fn spec_port(self) -> u16 {
        match self {
            IpSocketAddress::V4(a) => a.port,
            IpSocketAddress::V6(a) => a.port,
        }
    }

    /// The IP address of a socket address.
    pub fn ip(&self) -> (r: IpAddress)
        ensures
            r == self.spec_ip(),
    {
        match self {
            IpSocketAddress::V4(a) => IpAddress::V4(a.address),
            IpSocketAddress::V6(a) => IpAddress::V6(a.address),
        }
    }

    /// The port of a socket address.
    pub fn port(&self) -> (r: u16)
        ensures
            r == self.spec_port(),
    {
        match self {
            IpSocketAddress::V4(a) => a.port,
            IpSocketAddress::V6(a) => a.port,
        }
    }
}

/// Whether the address passes the unicast validation: after
/// canonicalization it is neither IPv4 multicast, IPv4 broadcast, nor IPv6
/// multicast.
pub open spec fn spec_is_unicast(addr: IpSocketAddress) -> bool {
    match spec_to_canonical(addr.spec_ip()) {
        IpAddress::V4(v4) => !v4.spec_is_multicast() && !v4.spec_is_broadcast(),
        IpAddress::V6(v6) => !v6.spec_is_multicast(),
    }
}

/// Reject IPv4 multicast or broadcast addresses and IPv6 multicast
/// addresses, judged on the canonical form.
pub fn validate_unicast(addr: &IpSocketAddress) -> (r: Result<(), ErrorCode>)
    ensures
        r == (if spec_is_unicast(*addr) {
            Result::<(), ErrorCode>::Ok(())
        } else {
            Result::<(), ErrorCode>::Err(ErrorCode::InvalidArgument)
        }),
{
    match to_canonical(&addr.ip()) {
        IpAddress::V4(v4) => {
            if (224 <= v4.o0 && v4.o0 <= 239) || (v4.o0 == 255 && v4.o1 == 255 && v4.o2 == 255
                && v4.o3 == 255) {
                Result::Err(ErrorCode::InvalidArgument)
            } else {
                Result::Ok(())
            }
        },
        IpAddress::V6(v6) => {
            if v6.s0 & 0xff00 == 0xff00 {
                Result::Err(ErrorCode::InvalidArgument)
            } else {
                Result::Ok(())
            }
        },
    }
}

/// Whether the address passes the remote-address validation: the IP is not
/// unspecified after canonicalization, and the port is not zero.
pub open spec fn spec_is_valid_remote(addr: IpSocketAddress) -> bool {
    &&& match spec_to_canonical(addr.spec_ip()) {
        IpAddress::V4(v4) => !v4.spec_is_unspecified(),
        IpAddress::V6(v6) => !v6.spec_is_unspecified(),
    }
    &&& addr.spec_port() != 0
}

/// Reject a remote address whose IP is unspecified (`0.0.0.0` or `::`)
/// after canonicalization, or whose port is zero.
pub fn validate_remote_address(addr: &IpSocketAddress) -> (r: Result<(), ErrorCode>)
    ensures
        r == (if spec_is_valid_remote(*addr) {
            Result::<(), ErrorCode>::Ok(())
        } else {
            Result::<(), ErrorCode>::Err(ErrorCode::InvalidArgument)
        }),
{
    let unspecified = match to_canonical(&addr.ip()) {
        IpAddress::V4(v4) => v4.o0 == 0 && v4.o1 == 0 && v4.o2 == 0 && v4.o3 == 0,
        IpAddress::V6(v6) => v6.s0 == 0 && v6.s1 == 0 && v6.s2 == 0 && v6.s3 == 0 && v6.s4 == 0
            && v6.s5 == 0 && v6.s6 == 0 && v6.s7 == 0,
    };
    if unspecified {
        Result::Err(ErrorCode::InvalidArgument)
    } else if addr.port() == 0 {
        Result::Err(ErrorCode::InvalidArgument)
    } else {
        Result::Ok(())
    }
}

/// Whether the address matches the socket's family: an IPv4 address needs a
/// V4 socket; an IPv6 address needs a V6 socket and may be neither a
/// deprecated IPv4-compatible address nor an IPv4-mapped one.
pub open spec fn spec_matches_family(addr: IpSocketAddress, family: AddressFamily) -> bool {
    match (family, addr.spec_ip()) {
        (AddressFamily::V4, IpAddress::V4(_)) => true,
        (AddressFamily::V6, IpAddress::V6(v6)) => !spec_is_deprecated_ipv4_compatible(v6)
            && !v6.spec_is_ipv4_mapped(),
        _ => false,
    }
}

/// Reject an address of the wrong family, and on a V6 socket also the
/// deprecated IPv4-compatible and the IPv4-mapped IPv6 addresses, since the
/// socket is v6-only.
pub fn validate_address_family(addr: &IpSocketAddress, family: AddressFamily) -> (r: Result<
    (),
    ErrorCode,
>)
    ensures
        r == (if spec_matches_family(*addr, family) {
            Result::<(), ErrorCode>::Ok(())
        } else {
            Result::<(), ErrorCode>::Err(ErrorCode::InvalidArgument)
        }),
{
    match (family, addr.ip()) {
        (AddressFamily::V4, IpAddress::V4(_)) => Result::Ok(()),
        (AddressFamily::V6, IpAddress::V6(v6)) => {
            if is_deprecated_ipv4_compatible(&v6) {
                Result::Err(ErrorCode::InvalidArgument)
            } else if v6.s0 == 0 && v6.s1 == 0 && v6.s2 == 0 && v6.s3 == 0 && v6.s4 == 0 && v6.s5
                == 0xffff {
                Result::Err(ErrorCode::InvalidArgument)
            } else {
                Result::Ok(())
            }
        },
        _ => Result::Err(ErrorCode::InvalidArgument),
    }
}

} // verus!
