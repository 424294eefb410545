use wasi_tcp::address::{
    is_deprecated_ipv4_compatible, to_canonical, validate_address_family, validate_remote_address,
    validate_unicast, AddressFamily, IpAddress, IpSocketAddress, Ipv4Address, Ipv4SocketAddress,
    Ipv6Address, Ipv6SocketAddress,
};
use wasi_tcp::error::ErrorCode;

fn v4(o0: u8, o1: u8, o2: u8, o3: u8) -> Ipv4Address {
    Ipv4Address { o0, o1, o2, o3 }
}

fn v6(s: [u16; 8]) -> Ipv6Address {
    Ipv6Address {
        s0: s[0],
        s1: s[1],
        s2: s[2],
        s3: s[3],
        s4: s[4],
        s5: s[5],
        s6: s[6],
        s7: s[7],
    }
}

fn sa4(a: Ipv4Address, port: u16) -> IpSocketAddress {
    IpSocketAddress::V4(Ipv4SocketAddress { address: a, port })
}

fn sa6(a: Ipv6Address, port: u16) -> IpSocketAddress {
    IpSocketAddress::V6(Ipv6SocketAddress {
        address: a,
        port,
        flow_info: 0,
        scope_id: 0,
    })
}

#[test]
fn canonical_unwraps_ipv4_mapped() {
    let mapped = IpAddress::V6(v6([0, 0, 0, 0, 0, 0xffff, 0x0102, 0x0304]));
    assert_eq!(to_canonical(&mapped), IpAddress::V4(v4(1, 2, 3, 4)));
}

#[test]
fn canonical_keeps_plain_addresses() {
    let plain_v6 = IpAddress::V6(v6([0x2001, 0xdb8, 0, 0, 0, 0, 0, 1]));
    assert_eq!(to_canonical(&plain_v6), plain_v6);
    let plain_v4 = IpAddress::V4(v4(8, 8, 8, 8));
    assert_eq!(to_canonical(&plain_v4), plain_v4);
}

#[test]
fn deprecated_ipv4_compatible_detection() {
    assert!(is_deprecated_ipv4_compatible(&v6([0, 0, 0, 0, 0, 0, 0x0a00, 0x0001])));
    // the unspecified address and loopback are excluded
    assert!(!is_deprecated_ipv4_compatible(&v6([0, 0, 0, 0, 0, 0, 0, 0])));
    assert!(!is_deprecated_ipv4_compatible(&v6([0, 0, 0, 0, 0, 0, 0, 1])));
    // IPv4-mapped addresses are a different block
    assert!(!is_deprecated_ipv4_compatible(&v6([0, 0, 0, 0, 0, 0xffff, 1, 1])));
}

#[test]
fn unicast_rejects_v4_multicast_and_broadcast() {
    assert_eq!(
        validate_unicast(&sa4(v4(224, 0, 0, 1), 80)),
        Err(ErrorCode::InvalidArgument)
    );
    assert_eq!(
        validate_unicast(&sa4(v4(239, 255, 255, 255), 80)),
        Err(ErrorCode::InvalidArgument)
    );
    assert_eq!(
        validate_unicast(&sa4(v4(255, 255, 255, 255), 80)),
        Err(ErrorCode::InvalidArgument)
    );
    assert_eq!(validate_unicast(&sa4(v4(192, 168, 1, 1), 80)), Ok(()));
}

#[test]
fn unicast_rejects_v6_multicast() {
    assert_eq!(
        validate_unicast(&sa6(v6([0xff02, 0, 0, 0, 0, 0, 0, 1]), 80)),
        Err(ErrorCode::InvalidArgument)
    );
    assert_eq!(
        validate_unicast(&sa6(v6([0x2001, 0xdb8, 0, 0, 0, 0, 0, 1]), 80)),
        Ok(())
    );
}

#[test]
fn unicast_judges_the_canonical_form() {
    // an IPv4-mapped multicast address is multicast after canonicalization
    assert_eq!(
        validate_unicast(&sa6(v6([0, 0, 0, 0, 0, 0xffff, 0xe000, 0x0001]), 80)),
        Err(ErrorCode::InvalidArgument)
    );
}

#[test]
fn remote_rejects_unspecified_addresses() {
    assert_eq!(
        validate_remote_address(&sa4(v4(0, 0, 0, 0), 80)),
        Err(ErrorCode::InvalidArgument)
    );
    assert_eq!(
        validate_remote_address(&sa6(v6([0, 0, 0, 0, 0, 0, 0, 0]), 80)),
        Err(ErrorCode::InvalidArgument)
    );
    // IPv4-mapped unspecified is unspecified after canonicalization
    assert_eq!(
        validate_remote_address(&sa6(v6([0, 0, 0, 0, 0, 0xffff, 0, 0]), 80)),
        Err(ErrorCode::InvalidArgument)
    );
}

#[test]
fn remote_rejects_port_zero() {
    assert_eq!(
        validate_remote_address(&sa4(v4(10, 0, 0, 1), 0)),
        Err(ErrorCode::InvalidArgument)
    );
    assert_eq!(validate_remote_address(&sa4(v4(10, 0, 0, 1), 80)), Ok(()));
}

#[test]
fn family_requires_matching_socket() {
    assert_eq!(
        validate_address_family(&sa4(v4(127, 0, 0, 1), 80), AddressFamily::V4),
        Ok(())
    );
    assert_eq!(
        validate_address_family(&sa4(v4(127, 0, 0, 1), 80), AddressFamily::V6),
        Err(ErrorCode::InvalidArgument)
    );
    assert_eq!(
        validate_address_family(&sa6(v6([0, 0, 0, 0, 0, 0, 0, 1]), 80), AddressFamily::V4),
        Err(ErrorCode::InvalidArgument)
    );
    assert_eq!(
        validate_address_family(&sa6(v6([0x2001, 0xdb8, 0, 0, 0, 0, 0, 1]), 80), AddressFamily::V6),
        Ok(())
    );
}

#[test]
fn family_rejects_ipv4_in_ipv6_encodings_on_v6_sockets() {
    // deprecated IPv4-compatible
    assert_eq!(
        validate_address_family(&sa6(v6([0, 0, 0, 0, 0, 0, 0x0a00, 1]), 80), AddressFamily::V6),
        Err(ErrorCode::InvalidArgument)
    );
    // IPv4-mapped on a v6-only socket
    assert_eq!(
        validate_address_family(
            &sa6(v6([0, 0, 0, 0, 0, 0xffff, 0x7f00, 1]), 80),
            AddressFamily::V6
        ),
        Err(ErrorCode::InvalidArgument)
    );
}
