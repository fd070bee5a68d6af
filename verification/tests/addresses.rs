use udp_link::addr::{IpAddress, SocketAddress};

#[test]
fn v4_spells_its_octets() {
    assert_eq!(IpAddress::v4(127, 0, 0, 1), IpAddress::V4(0x7f00_0001));
    assert_eq!(IpAddress::v4(192, 168, 1, 5), IpAddress::V4(0xc0a8_0105));
    assert_eq!(IpAddress::v4(255, 255, 255, 255), IpAddress::V4(u32::MAX));
    assert_eq!(IpAddress::v4(0, 0, 0, 0), IpAddress::unspecified_v4());
}

#[test]
fn loopback_is_the_127_block_or_one() {
    assert!(IpAddress::v4(127, 0, 0, 1).is_loopback());
    assert!(IpAddress::v4(127, 255, 255, 255).is_loopback());
    assert!(!IpAddress::v4(126, 255, 255, 255).is_loopback());
    assert!(!IpAddress::v4(128, 0, 0, 0).is_loopback());
    assert!(IpAddress::V6(1).is_loopback());
    assert!(!IpAddress::V6(2).is_loopback());
    assert!(!IpAddress::V6(0).is_loopback());
}

#[test]
fn multicast_is_the_224_block_or_ff() {
    assert!(IpAddress::v4(224, 0, 0, 0).is_multicast());
    assert!(IpAddress::v4(239, 255, 255, 255).is_multicast());
    assert!(!IpAddress::v4(223, 255, 255, 255).is_multicast());
    assert!(!IpAddress::v4(240, 0, 0, 0).is_multicast());
    assert!(IpAddress::V6(0xff02_0000_0000_0000_0000_0000_0000_0001).is_multicast());
    assert!(!IpAddress::V6(0xfe80_0000_0000_0000_0000_0000_0000_0001).is_multicast());
}

#[test]
fn wildcards_are_zero() {
    assert!(IpAddress::unspecified_v4().is_unspecified());
    assert!(IpAddress::unspecified_v6().is_unspecified());
    assert!(!IpAddress::v4(0, 0, 0, 1).is_unspecified());
    assert!(!IpAddress::V6(1).is_unspecified());
    assert_ne!(IpAddress::unspecified_v4(), IpAddress::unspecified_v6());
}

#[test]
fn families_are_told_apart() {
    assert!(IpAddress::v4(10, 0, 0, 1).is_ipv4());
    assert!(!IpAddress::v4(10, 0, 0, 1).is_ipv6());
    assert!(IpAddress::V6(7).is_ipv6());
    assert!(!IpAddress::V6(7).is_ipv4());
}

#[test]
fn initiator_binds_the_wildcard_of_the_peers_family() {
    let peer4 = SocketAddress::new(IpAddress::v4(10, 0, 0, 1), 7447);
    let peer6 = SocketAddress::new(IpAddress::V6(0x2001_0db8 << 96), 7447);
    assert_eq!(
        SocketAddress::ephemeral_for(&peer4),
        SocketAddress { ip: IpAddress::V4(0), port: 0 }
    );
    assert_eq!(
        SocketAddress::ephemeral_for(&peer6),
        SocketAddress { ip: IpAddress::V6(0), port: 0 }
    );
}
