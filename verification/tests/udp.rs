use std::io::{Error, ErrorKind};
use tacklebox::address::{AddressParseError, AddressSpec};
use tacklebox::decoder::{decode_udp, HeaderDecodeError};
use tacklebox::poller::Attempt;
use tacklebox::session::{wait_millis, SessionError, SessionStep};
use tacklebox::udp::{ipv4_payload, UdpSession, MAX_UDP_PAYLOAD, RECEIVE_BUFFER_LEN};
use tacklebox::Sender;

fn pair() -> (UdpSession, UdpSession) {
    let mut a = UdpSession::new("127.0.0.1:9001").unwrap();
    let b = UdpSession::new("127.0.0.1:9002").unwrap();
    a.set_remote("127.0.0.1:9002").unwrap();
    (a, b)
}

#[test]
fn new_session_has_local_and_no_remote() {
    let s = UdpSession::new("10.1.2.3:4000").unwrap();
    assert_eq!(s.local, AddressSpec { ipv4_octets: [10, 1, 2, 3], port: 4000 });
    assert_eq!(s.remote, None);
}

#[test]
fn new_session_refuses_a_bad_address() {
    assert!(matches!(
        UdpSession::new("nowhere"),
        Err(SessionError::AddressParse(AddressParseError::MissingPort))
    ));
    assert!(matches!(
        UdpSession::new("host:1"),
        Err(SessionError::AddressParse(AddressParseError::InvalidIp))
    ));
    assert!(matches!(
        UdpSession::new("1.1.1.1:x"),
        Err(SessionError::AddressParse(AddressParseError::InvalidPort))
    ));
}

#[test]
fn bind_failure_is_a_bind_error() {
    let s = UdpSession::new("127.0.0.1:9001").unwrap();
    assert_eq!(s.bound(Ok(())).unwrap(), s);
    match s.bound(Err(Error::from(ErrorKind::AddrInUse))) {
        Err(SessionError::Bind(e)) => assert_eq!(e.kind(), ErrorKind::AddrInUse),
        other => panic!("{:?}", other),
    }
}

#[test]
fn set_remote_records_the_address() {
    let mut s = UdpSession::new("127.0.0.1:9001").unwrap();
    s.set_remote("192.168.7.8:53").unwrap();
    assert_eq!(s.remote, Some(AddressSpec { ipv4_octets: [192, 168, 7, 8], port: 53 }));
    assert_eq!(s.local.port, 9001);
}

#[test]
fn set_remote_with_a_bad_address_changes_nothing() {
    let (mut a, _) = pair();
    let before = a;
    assert!(matches!(
        a.set_remote("127.0.0.1:70000"),
        Err(SessionError::AddressParse(AddressParseError::InvalidPort))
    ));
    assert_eq!(a, before);
}

#[test]
fn send_without_remote_is_refused() {
    let mut s = UdpSession::new("127.0.0.1:9001").unwrap();
    assert!(matches!(s.send(&[1, 1, 1]), Err(SessionError::NoRemoteAddress)));
}

#[test]
fn send_frames_header_then_payload() {
    let (mut a, _) = pair();
    let wire = a.send(&[1, 1, 1]).unwrap();
    assert_eq!(wire, vec![0x23, 0x29, 0x23, 0x2a, 0x00, 0x0b, 0xb9, 0x81, 1, 1, 1]);
}

#[test]
fn send_leaves_the_session_as_it_was() {
    let (mut a, _) = pair();
    let before = a;
    a.send(b"ping").unwrap();
    assert_eq!(a, before);
}

#[test]
fn sent_datagram_is_received_whole() {
    let (mut a, b) = pair();
    let wire = a.send(&[1, 1, 1]).unwrap();
    let mut buf = vec![0u8; RECEIVE_BUFFER_LEN];
    buf[..wire.len()].copy_from_slice(&wire);
    match b.receive(5, 3, Attempt::Ready(wire.len()), &buf) {
        SessionStep::Done(rec) => {
            assert_eq!(rec.datagram.data, vec![1, 1, 1]);
            assert_eq!(rec.datagram.header.source_port, 9001);
            assert_eq!(rec.datagram.header.destination_port, 9002);
            assert_eq!(rec.datagram.header.length, 11);
            assert_eq!(rec.wait_millis, 3);
            assert!(rec.wait_millis < 1000);
        }
        other => panic!("{:?}", other),
    }
}

#[test]
fn every_payload_length_comes_back() {
    let (mut a, b) = pair();
    for n in [0usize, 1, 2, 3, 7, 8, 9, 255, 256, 1472, 65506, MAX_UDP_PAYLOAD] {
        let payload: Vec<u8> = (0..n).map(|i| (i % 251) as u8).collect();
        let wire = a.send(&payload).unwrap();
        assert_eq!(wire.len(), n + 8);
        match b.receive(5, 0, Attempt::Ready(wire.len()), &wire) {
            SessionStep::Done(rec) => {
                assert_eq!(rec.datagram.data.len(), n);
                assert_eq!(rec.datagram.data, payload);
                assert_eq!(rec.datagram.header.length as usize, n + 8);
            }
            other => panic!("{:?}", other),
        }
    }
}

#[test]
fn checksum_depends_on_the_payload() {
    let (mut a, _) = pair();
    let one = decode_udp(&a.send(&[1, 1, 1]).unwrap(), 11).unwrap();
    let two = decode_udp(&a.send(&[1, 1, 2]).unwrap(), 11).unwrap();
    assert_eq!(one.header.checksum, 0xb981);
    assert_eq!(two.header.checksum, 0xb881);
}

#[test]
fn receive_with_nothing_read_retries_until_the_wait_is_over() {
    let (_, b) = pair();
    let buf = vec![0u8; 16];
    for elapsed in [0u128, 1, 2500, 4999] {
        assert!(matches!(
            b.receive(5, elapsed, Attempt::WouldBlock, &buf),
            SessionStep::Retry
        ));
    }
    for elapsed in [5000u128, 5001, 60_000] {
        assert!(matches!(
            b.receive(5, elapsed, Attempt::WouldBlock, &buf),
            SessionStep::Failed(SessionError::Timeout)
        ));
    }
}

#[test]
fn receive_with_zero_wait_times_out_on_the_first_empty_read() {
    let (_, b) = pair();
    assert!(matches!(
        b.receive(0, 0, Attempt::WouldBlock, &[]),
        SessionStep::Failed(SessionError::Timeout)
    ));
}

#[test]
fn receive_hands_on_a_failed_read() {
    let (_, b) = pair();
    match b.receive(5, 10, Attempt::Failed(Error::from(ErrorKind::ConnectionRefused)), &[]) {
        SessionStep::Failed(SessionError::Io(e)) => {
            assert_eq!(e.kind(), ErrorKind::ConnectionRefused)
        }
        other => panic!("{:?}", other),
    }
}

#[test]
fn receive_of_fewer_bytes_than_a_header_fails_to_decode() {
    let (_, b) = pair();
    let buf = vec![0u8; RECEIVE_BUFFER_LEN];
    for n in 0..8 {
        assert!(matches!(
            b.receive(5, 1, Attempt::Ready(n), &buf),
            SessionStep::Failed(SessionError::HeaderDecode(HeaderDecodeError::Truncated))
        ));
    }
}

#[test]
fn receive_takes_data_that_came_after_the_wait_was_over() {
    let (mut a, b) = pair();
    let wire = a.send(b"late").unwrap();
    match b.receive(1, 1500, Attempt::Ready(wire.len()), &wire) {
        SessionStep::Done(rec) => {
            assert_eq!(rec.datagram.data, b"late".to_vec());
            assert_eq!(rec.wait_millis, 1500);
        }
        other => panic!("{:?}", other),
    }
}

#[test]
fn wait_millis_keeps_the_low_32_bits() {
    assert_eq!(wait_millis(0), 0);
    assert_eq!(wait_millis(4_294_967_295), u32::MAX);
    assert_eq!(wait_millis(4_294_967_296), 0);
    assert_eq!(wait_millis(4_294_967_296 + 17), 17);
}

#[test]
fn frames_follow_ports_and_payload_for_many_inputs() {
    for seed in 0..200u32 {
        let sport = (seed.wrapping_mul(2654435761) >> 16) as u16;
        let dport = (seed.wrapping_mul(40503).wrapping_add(977)) as u16;
        let mut a = UdpSession {
            local: AddressSpec { ipv4_octets: [10, seed as u8, 0, 1], port: sport },
            remote: Some(AddressSpec { ipv4_octets: [10, 0, seed as u8, 2], port: dport }),
        };
        let payload: Vec<u8> = (0..(seed as usize * 7) % 300).map(|i| (i * 31) as u8).collect();
        let wire = a.send(&payload).unwrap();
        assert_eq!(wire.len(), payload.len() + 8);
        assert_eq!(&wire[0..2], &sport.to_be_bytes());
        assert_eq!(&wire[2..4], &dport.to_be_bytes());
        assert_eq!(&wire[4..6], &((payload.len() + 8) as u16).to_be_bytes());
        assert_eq!(&wire[8..], &payload[..]);
    }
}

#[test]
fn ipv4_payload_is_what_follows_twenty_bytes() {
    let packet: Vec<u8> = (0u8..30).collect();
    assert_eq!(ipv4_payload(&packet), Some((20u8..30).collect::<Vec<u8>>()));
    assert_eq!(ipv4_payload(&packet[..20]), Some(vec![]));
    assert_eq!(ipv4_payload(&packet[..19]), None);
    assert_eq!(ipv4_payload(&[]), None);
}
