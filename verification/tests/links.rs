use udp_link::addr::{IpAddress, SocketAddress};
use udp_link::demux::{Action, Demux, Received};
use udp_link::error::LinkError;
use udp_link::limits::{UDP_DEFAULT_MTU, UDP_MAX_MTU};
use udp_link::link::{LinkUnicastUdp, LinkVariant, Transfer, WriteTarget};
use udp_link::locator::{Locator, Scheme};

fn here() -> SocketAddress {
    SocketAddress::new(IpAddress::v4(127, 0, 0, 1), 37001)
}

fn there() -> SocketAddress {
    SocketAddress::new(IpAddress::v4(127, 0, 0, 1), 50123)
}

#[test]
fn link_caches_the_locators_of_its_addresses() {
    let link = LinkUnicastUdp::new(
        here(),
        there(),
        LinkVariant::Connected,
        Some(String::from("a=b")),
    );
    assert_eq!(link.src_addr(), here());
    assert_eq!(link.dst_addr(), there());
    assert_eq!(
        *link.get_src(),
        Locator { scheme: Scheme::Udp, address: here(), metadata: None }
    );
    assert_eq!(
        *link.get_dst(),
        Locator { scheme: Scheme::Udp, address: there(), metadata: Some(String::from("a=b")) }
    );
}

#[test]
fn udp_link_is_neither_reliable_nor_streamed() {
    let link = LinkUnicastUdp::new(here(), there(), LinkVariant::Connected, None);
    assert!(!link.is_reliable());
    assert!(!link.is_streamed());
    assert_eq!(link.get_mtu(), 65_507);
    assert_eq!(UDP_DEFAULT_MTU, 65_507);
    assert_eq!(UDP_MAX_MTU, 65_507);
}

#[test]
fn connected_link_writes_on_its_own_socket() {
    let link = LinkUnicastUdp::new(here(), there(), LinkVariant::Connected, None);
    assert_eq!(link.write_target(true), Ok(WriteTarget::Connected));
    assert_eq!(link.write_target(false), Ok(WriteTarget::Connected));
}

#[test]
fn accepted_link_writes_to_its_peer_on_the_listeners_socket() {
    let link =
        LinkUnicastUdp::new(here(), there(), LinkVariant::Unconnected { leftover: None }, None);
    assert_eq!(link.write_target(true), Ok(WriteTarget::To(there())));
}

#[test]
fn write_after_the_listener_is_gone_fails() {
    let link =
        LinkUnicastUdp::new(here(), there(), LinkVariant::Unconnected { leftover: None }, None);
    assert_eq!(link.write_target(false), Err(LinkError::ListenerGone));
}

#[test]
fn socket_failure_is_an_io_error() {
    assert_eq!(LinkUnicastUdp::transferred(None), Err(LinkError::Io));
    assert_eq!(LinkUnicastUdp::transferred(Some(0)), Ok(0));
    assert_eq!(LinkUnicastUdp::transferred(Some(3)), Ok(3));
}

#[test]
fn closing_an_accepted_link_takes_it_out_of_the_table() {
    let mut demux = Demux::new(here());
    let other = SocketAddress::new(IpAddress::v4(127, 0, 0, 1), 50124);
    demux.on_outcome(Received::Datagram { len: 1, peer: there() });
    demux.on_outcome(Received::Datagram { len: 1, peer: other });
    let link =
        LinkUnicastUdp::new(here(), there(), LinkVariant::Unconnected { leftover: None }, None);
    assert_eq!(link.close(&mut demux), Ok(()));
    assert_eq!(demux.token_of(there()), None);
    assert_eq!(demux.token_of(other), Some(1));
}

#[test]
fn closing_a_connected_link_changes_no_table() {
    let mut demux = Demux::new(here());
    demux.on_outcome(Received::Datagram { len: 1, peer: there() });
    let link = LinkUnicastUdp::new(here(), there(), LinkVariant::Connected, None);
    assert_eq!(link.close(&mut demux), Ok(()));
    assert_eq!(demux.token_of(there()), Some(0));
}

#[test]
fn transfer_runs_until_every_byte_is_moved() {
    let mut transfer = Transfer::begin(10);
    assert!(!transfer.is_complete());
    transfer.advance(4);
    assert_eq!(transfer, Transfer { done: 4, total: 10 });
    assert!(!transfer.is_complete());
    transfer.advance(0);
    assert_eq!(transfer.done, 4);
    transfer.advance(6);
    assert!(transfer.is_complete());
    assert!(Transfer::begin(0).is_complete());
}

#[test]
fn published_link_then_delivered_then_closed_is_published_anew() {
    let mut demux = Demux::new(here());
    let first = demux.on_outcome(Received::Datagram { len: 2, peer: there() });
    let id = match first {
        Action::Publish { id, token: 0, len: 2 } => id,
        other => panic!("unexpected {:?}", other),
    };
    demux.on_close(id);
    let again = demux.on_outcome(Received::Datagram { len: 2, peer: there() });
    assert_eq!(again, Action::Publish { id, token: 1, len: 2 });
}
