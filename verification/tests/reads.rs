use udp_link::addr::{IpAddress, SocketAddress};
use udp_link::leftover::{read_from, Leftover, ReadStep};
use udp_link::link::{LinkUnicastUdp, LinkVariant, ReadPlan};

fn accepted() -> LinkUnicastUdp {
    LinkUnicastUdp::new(
        SocketAddress::new(IpAddress::v4(127, 0, 0, 1), 37001),
        SocketAddress::new(IpAddress::v4(127, 0, 0, 1), 50123),
        LinkVariant::Unconnected { leftover: None },
        None,
    )
}

#[test]
fn read_takes_the_whole_datagram_when_it_fits() {
    let datagram = vec![1u8, 2, 3, 0, 0, 0, 0, 0];
    let mut buffer = [9u8; 5];
    let step = read_from(&datagram, Leftover::whole(3), &mut buffer);
    assert_eq!(step, ReadStep { copied: 3, rest: None });
    assert_eq!(buffer, [1, 2, 3, 9, 9]);
}

#[test]
fn read_keeps_what_does_not_fit() {
    let datagram = vec![1u8, 2, 3, 4, 5, 6, 7];
    let mut buffer = [0u8; 3];
    let step = read_from(&datagram, Leftover { start: 2, len: 7 }, &mut buffer);
    assert_eq!(step, ReadStep { copied: 3, rest: Some(Leftover { start: 5, len: 7 }) });
    assert_eq!(buffer, [3, 4, 5]);
}

#[test]
fn read_of_an_exact_fit_leaves_nothing() {
    let datagram = vec![1u8, 2, 3, 4];
    let mut buffer = [0u8; 4];
    let step = read_from(&datagram, Leftover::whole(4), &mut buffer);
    assert_eq!(step, ReadStep { copied: 4, rest: None });
    assert_eq!(buffer, [1, 2, 3, 4]);
}

#[test]
fn empty_datagram_is_a_read_of_zero_bytes() {
    let datagram = vec![0u8; 16];
    let mut buffer = [7u8; 4];
    let step = read_from(&datagram, Leftover::whole(0), &mut buffer);
    assert_eq!(step, ReadStep { copied: 0, rest: None });
    assert_eq!(buffer, [7, 7, 7, 7]);
}

#[test]
fn read_into_an_empty_buffer_keeps_the_datagram() {
    let datagram = vec![5u8; 4];
    let mut buffer = [0u8; 0];
    let step = read_from(&datagram, Leftover::whole(4), &mut buffer);
    assert_eq!(step, ReadStep { copied: 0, rest: Some(Leftover { start: 0, len: 4 }) });
}

#[test]
fn truncated_read_goes_on_where_it_stopped() {
    let mut datagram = vec![0u8; 64];
    for b in datagram.iter_mut().take(10) {
        *b = 0xAA;
    }
    let mut link = accepted();
    assert_eq!(link.read_plan(), ReadPlan::Await);

    let mut first = [0u8; 4];
    let step = link.read(&datagram, 10, &mut first).unwrap();
    assert_eq!(step.copied, 4);
    assert_eq!(first, [0xAA; 4]);
    assert_eq!(step.rest, Some(Leftover { start: 4, len: 10 }));
    assert_eq!(link.read_plan(), ReadPlan::Held(Leftover { start: 4, len: 10 }));

    let mut second = [0u8; 8];
    let step = link.read(&datagram, 0, &mut second).unwrap();
    assert_eq!(step.copied, 6);
    assert_eq!(&second[..6], &[0xAA; 6]);
    assert_eq!(&second[6..], &[0, 0]);
    assert_eq!(step.rest, None);

    assert_eq!(link.read_plan(), ReadPlan::Await);
}

#[test]
fn reads_hand_out_the_datagram_in_order_and_recycle_once() {
    let datagram: Vec<u8> = (0u8..10).collect();
    let mut link = accepted();
    let mut seen: Vec<u8> = Vec::new();
    let mut reads = 0;
    let mut recycled = 0;
    loop {
        let mut buffer = [0u8; 3];
        let step = link.read(&datagram, 10, &mut buffer).unwrap();
        seen.extend_from_slice(&buffer[..step.copied]);
        reads += 1;
        if step.rest.is_none() {
            recycled += 1;
            break;
        }
    }
    assert_eq!(seen, datagram);
    assert_eq!(reads, 4);
    assert_eq!(recycled, 1);
    assert_eq!(link.read_plan(), ReadPlan::Await);
}

#[test]
fn reads_of_unequal_size_hand_out_the_datagram() {
    let datagram: Vec<u8> = (10u8..17).collect();
    let mut link = accepted();
    let mut a = [0u8; 1];
    let mut b = [0u8; 4];
    let mut c = [0u8; 5];
    assert_eq!(link.read(&datagram, 7, &mut a).unwrap().copied, 1);
    assert_eq!(link.read(&datagram, 7, &mut b).unwrap().copied, 4);
    let last = link.read(&datagram, 7, &mut c).unwrap();
    assert_eq!(last, ReadStep { copied: 2, rest: None });
    assert_eq!(a, [10]);
    assert_eq!(b, [11, 12, 13, 14]);
    assert_eq!(c, [15, 16, 0, 0, 0]);
}

#[test]
fn connected_link_reads_from_its_socket() {
    let mut link = LinkUnicastUdp::new(
        SocketAddress::new(IpAddress::v4(127, 0, 0, 1), 50123),
        SocketAddress::new(IpAddress::v4(127, 0, 0, 1), 37001),
        LinkVariant::Connected,
        None,
    );
    assert_eq!(link.read_plan(), ReadPlan::Socket);
    let mut buffer = [3u8; 2];
    assert_eq!(link.read(&[1, 2], 2, &mut buffer), None);
    assert_eq!(buffer, [3, 3]);
}
