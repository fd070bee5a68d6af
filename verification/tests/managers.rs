use udp_link::addr::{IpAddress, SocketAddress};
use udp_link::demux::{Action, Demux, Received};
use udp_link::error::LinkError;
use udp_link::link::LinkVariant;
use udp_link::locator::{EndPoint, Locator, Scheme};
use udp_link::manager::{BindOutcome, LinkManagerUnicastUdp, SocketSetup};

fn endpoint(ip: IpAddress, port: u16, metadata: Option<&str>) -> EndPoint {
    EndPoint {
        locator: Locator {
            scheme: Scheme::Udp,
            address: SocketAddress::new(ip, port),
            metadata: metadata.map(String::from),
        },
        config: None,
    }
}

fn udp(ip: IpAddress, port: u16, metadata: Option<&str>) -> Locator {
    Locator {
        scheme: Scheme::Udp,
        address: SocketAddress::new(ip, port),
        metadata: metadata.map(String::from),
    }
}

fn host() -> Vec<IpAddress> {
    vec![
        IpAddress::v4(127, 0, 0, 1),
        IpAddress::v4(192, 168, 1, 5),
        IpAddress::V6(1),
        IpAddress::v4(224, 0, 0, 251),
        IpAddress::V6(0xfe80_0000_0000_0000_0000_0000_0000_0001),
        IpAddress::V6(0xff02_0000_0000_0000_0000_0000_0000_0001),
        IpAddress::v4(10, 0, 0, 7),
    ]
}

#[test]
fn new_manager_has_no_listeners() {
    let manager = LinkManagerUnicastUdp::new("sink");
    assert_eq!(*manager.new_link_sink(), "sink");
    assert!(manager.get_listeners().is_empty());
    assert!(manager.get_locators(&Some(host())).is_empty());
}

#[test]
fn new_link_takes_its_addresses_from_the_socket() {
    let manager = LinkManagerUnicastUdp::new("sink");
    let local = SocketAddress::new(IpAddress::v4(127, 0, 0, 1), 50123);
    let peer = SocketAddress::new(IpAddress::v4(127, 0, 0, 1), 37001);
    let link = manager
        .new_link(
            &endpoint(IpAddress::v4(127, 0, 0, 1), 37001, Some("k=v")),
            SocketSetup::Ready { local, peer },
        )
        .ok()
        .unwrap();
    assert_eq!(link.src_addr(), local);
    assert_eq!(link.dst_addr(), peer);
    assert_eq!(*link.get_dst(), udp(IpAddress::v4(127, 0, 0, 1), 37001, Some("k=v")));
    assert_eq!(*link.get_src(), udp(IpAddress::v4(127, 0, 0, 1), 50123, None));
    assert_eq!(link.write_target(false), Ok(udp_link::link::WriteTarget::Connected));
    let _ = LinkVariant::Connected;
}

#[test]
fn new_link_reports_what_went_wrong() {
    let manager = LinkManagerUnicastUdp::new("sink");
    let e = endpoint(IpAddress::v4(127, 0, 0, 1), 37001, None);
    assert_eq!(manager.new_link(&e, SocketSetup::Unresolved).err(), Some(LinkError::AddrResolve));
    assert_eq!(manager.new_link(&e, SocketSetup::BindRefused).err(), Some(LinkError::Bind));
    assert_eq!(manager.new_link(&e, SocketSetup::ConnectRefused).err(), Some(LinkError::Connect));
}

#[test]
fn connected_write_reaches_the_listener_as_a_new_link() {
    let manager = LinkManagerUnicastUdp::new("sink");
    let server = SocketAddress::new(IpAddress::v4(127, 0, 0, 1), 37001);
    let client = SocketAddress::new(IpAddress::v4(127, 0, 0, 1), 50123);
    let link = manager
        .new_link(
            &endpoint(IpAddress::v4(127, 0, 0, 1), 37001, None),
            SocketSetup::Ready { local: client, peer: server },
        )
        .ok()
        .unwrap();
    let mut demux = Demux::new(server);
    let action = demux.on_outcome(Received::Datagram { len: 3, peer: link.src_addr() });
    match action {
        Action::Publish { id, len, .. } => {
            assert_eq!(id.dst, client);
            assert_eq!(id.src, server);
            assert_eq!(len, 3);
        }
        other => panic!("unexpected {:?}", other),
    }
}

#[test]
fn new_listener_shows_the_address_that_the_bind_gave() {
    let mut manager = LinkManagerUnicastUdp::new("sink");
    let bound = SocketAddress::new(IpAddress::v4(127, 0, 0, 1), 40404);
    let locator = manager.new_listener(
        endpoint(IpAddress::v4(127, 0, 0, 1), 0, Some("m=1")),
        BindOutcome::Bound(bound),
        1,
    );
    assert_eq!(locator, Ok(udp(IpAddress::v4(127, 0, 0, 1), 40404, Some("m=1"))));
    assert_eq!(
        manager.get_listeners(),
        vec![endpoint(IpAddress::v4(127, 0, 0, 1), 40404, Some("m=1"))]
    );
    assert_eq!(
        manager.get_locators(&Some(host())),
        vec![udp(IpAddress::v4(127, 0, 0, 1), 40404, Some("m=1"))]
    );
}

#[test]
fn new_listener_reports_what_went_wrong() {
    let mut manager = LinkManagerUnicastUdp::new("sink");
    let e = endpoint(IpAddress::v4(127, 0, 0, 1), 37001, None);
    assert_eq!(manager.new_listener(e.clone(), BindOutcome::Unresolved, 1), Err(LinkError::AddrResolve));
    assert_eq!(manager.new_listener(e, BindOutcome::Refused, 1), Err(LinkError::Bind));
    assert!(manager.get_listeners().is_empty());
}

#[test]
fn second_listener_on_an_address_takes_the_place_of_the_first() {
    let mut manager = LinkManagerUnicastUdp::new("sink");
    let a = SocketAddress::new(IpAddress::v4(127, 0, 0, 1), 1000);
    let b = SocketAddress::new(IpAddress::v4(127, 0, 0, 1), 2000);
    manager.new_listener(endpoint(a.ip, a.port, Some("one")), BindOutcome::Bound(a), 1).unwrap();
    manager.new_listener(endpoint(b.ip, b.port, None), BindOutcome::Bound(b), 2).unwrap();
    manager.new_listener(endpoint(a.ip, a.port, Some("two")), BindOutcome::Bound(a), 3).unwrap();
    assert_eq!(
        manager.get_listeners(),
        vec![endpoint(b.ip, b.port, None), endpoint(a.ip, a.port, Some("two"))]
    );
    let gone = manager.del_listener(Some(a)).ok().unwrap();
    assert_eq!(gone.task, 3);
}

#[test]
fn del_listener_hands_the_listener_back() {
    let mut manager = LinkManagerUnicastUdp::new("sink");
    let a = SocketAddress::new(IpAddress::v4(127, 0, 0, 1), 1000);
    let b = SocketAddress::new(IpAddress::v4(127, 0, 0, 1), 2000);
    manager.new_listener(endpoint(a.ip, a.port, None), BindOutcome::Bound(a), 11).unwrap();
    manager.new_listener(endpoint(b.ip, b.port, None), BindOutcome::Bound(b), 22).unwrap();
    let gone = manager.del_listener(Some(a)).ok().unwrap();
    assert_eq!(*manager.new_link_sink(), "sink");
    assert_eq!(gone.task, 11);
    assert_eq!(gone.endpoint, endpoint(a.ip, a.port, None));
    assert_eq!(manager.get_listeners(), vec![endpoint(b.ip, b.port, None)]);
}

#[test]
fn del_listener_tells_not_found_from_unresolved() {
    let mut manager = LinkManagerUnicastUdp::new("sink");
    let a = SocketAddress::new(IpAddress::v4(127, 0, 0, 1), 1000);
    assert_eq!(manager.del_listener(Some(a)).err(), Some(LinkError::NotFound));
    assert_eq!(manager.del_listener(None).err(), Some(LinkError::AddrResolve));
    manager.new_listener(endpoint(a.ip, a.port, None), BindOutcome::Bound(a), 1).unwrap();
    assert!(manager.del_listener(Some(a)).is_ok());
    assert_eq!(manager.del_listener(Some(a)).err(), Some(LinkError::NotFound));
}

#[test]
fn ended_listener_leaves_the_registry() {
    let mut manager = LinkManagerUnicastUdp::new("sink");
    let a = SocketAddress::new(IpAddress::v4(127, 0, 0, 1), 1000);
    manager.new_listener(endpoint(a.ip, a.port, None), BindOutcome::Bound(a), 1).unwrap();
    manager.listener_ended(a);
    assert!(manager.get_listeners().is_empty());
    manager.listener_ended(a);
    assert!(manager.get_listeners().is_empty());
}

#[test]
fn ipv4_wildcard_shows_the_dialable_ipv4_addresses() {
    let mut manager = LinkManagerUnicastUdp::new("sink");
    let bound = SocketAddress::new(IpAddress::unspecified_v4(), 7447);
    manager
        .new_listener(endpoint(IpAddress::unspecified_v4(), 0, Some("x=y")), BindOutcome::Bound(bound), 1)
        .unwrap();
    assert_eq!(
        manager.get_locators(&Some(host())),
        vec![
            udp(IpAddress::v4(192, 168, 1, 5), 7447, Some("x=y")),
            udp(IpAddress::v4(10, 0, 0, 7), 7447, Some("x=y")),
        ]
    );
}

#[test]
fn ipv6_wildcard_shows_the_dialable_ipv6_addresses() {
    let mut manager = LinkManagerUnicastUdp::new("sink");
    let bound = SocketAddress::new(IpAddress::unspecified_v6(), 7448);
    manager
        .new_listener(endpoint(IpAddress::unspecified_v6(), 7448, None), BindOutcome::Bound(bound), 1)
        .unwrap();
    assert_eq!(
        manager.get_locators(&Some(host())),
        vec![udp(IpAddress::V6(0xfe80_0000_0000_0000_0000_0000_0000_0001), 7448, None)]
    );
}

#[test]
fn wildcard_shows_nothing_without_the_hosts_addresses() {
    let mut manager = LinkManagerUnicastUdp::new("sink");
    let wild = SocketAddress::new(IpAddress::unspecified_v4(), 7447);
    let fixed = SocketAddress::new(IpAddress::v4(127, 0, 0, 1), 7449);
    manager.new_listener(endpoint(wild.ip, 0, None), BindOutcome::Bound(wild), 1).unwrap();
    manager.new_listener(endpoint(fixed.ip, fixed.port, None), BindOutcome::Bound(fixed), 2).unwrap();
    assert_eq!(manager.get_locators(&None), vec![udp(fixed.ip, fixed.port, None)]);
    assert_eq!(manager.get_locators(&Some(Vec::new())), vec![udp(fixed.ip, fixed.port, None)]);
}

#[test]
fn locators_follow_the_listeners_in_order() {
    let mut manager = LinkManagerUnicastUdp::new("sink");
    let fixed = SocketAddress::new(IpAddress::v4(127, 0, 0, 1), 7449);
    let wild = SocketAddress::new(IpAddress::unspecified_v4(), 7447);
    manager.new_listener(endpoint(fixed.ip, fixed.port, None), BindOutcome::Bound(fixed), 1).unwrap();
    manager.new_listener(endpoint(wild.ip, 0, None), BindOutcome::Bound(wild), 2).unwrap();
    assert_eq!(
        manager.get_locators(&Some(host())),
        vec![
            udp(IpAddress::v4(127, 0, 0, 1), 7449, None),
            udp(IpAddress::v4(192, 168, 1, 5), 7447, None),
            udp(IpAddress::v4(10, 0, 0, 7), 7447, None),
        ]
    );
}

#[test]
fn shutdown_unregisters_and_stops_the_loop() {
    let mut manager = LinkManagerUnicastUdp::new("sink");
    let bound = SocketAddress::new(IpAddress::unspecified_v4(), 45000);
    manager.new_listener(endpoint(bound.ip, 0, None), BindOutcome::Bound(bound), 1).unwrap();
    let shown = manager.get_locators(&Some(host()));
    assert!(shown.contains(&udp(IpAddress::v4(192, 168, 1, 5), 45000, None)));
    assert!(manager.del_listener(Some(bound)).is_ok());
    assert!(manager.get_locators(&Some(host())).is_empty());
    let mut demux = Demux::new(bound);
    assert_eq!(Demux::begin(false), Action::Exit);
    assert_eq!(demux.on_outcome(Received::Stopped), Action::Exit);
    assert_eq!(demux.issued(), 0);
}
