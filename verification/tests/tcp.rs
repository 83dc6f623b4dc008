use std::io::{Error, ErrorKind};
use tacklebox::address::{AddressParseError, AddressSpec};
use tacklebox::decoder::HeaderDecodeError;
use tacklebox::poller::Attempt;
use tacklebox::session::{SessionError, SessionStep};
use tacklebox::tcp::{TcpSession, TcpState};
use tacklebox::Sender;

fn segment(payload: &[u8]) -> Vec<u8> {
    let mut b = vec![
        0x00, 0x50, 0x04, 0x00, 0, 0, 0, 1, 0, 0, 0, 2, 0x60, 0x18, 0x01, 0x00, 0x12, 0x34, 0, 0,
        1, 1, 1, 0,
    ];
    b.extend_from_slice(payload);
    b
}

fn connected() -> TcpSession {
    let mut s = TcpSession::new("127.0.0.1:9100").unwrap();
    let peer = AddressSpec { ipv4_octets: [127, 0, 0, 1], port: 40000 };
    assert!(matches!(
        s.wait_for_connection(1, 0, Attempt::Ready(peer)),
        SessionStep::Done(0)
    ));
    s
}

#[test]
fn new_session_listens() {
    let s = TcpSession::new("127.0.0.1:9100").unwrap();
    assert_eq!(s.local, AddressSpec { ipv4_octets: [127, 0, 0, 1], port: 9100 });
    assert_eq!(s.remote, None);
    assert_eq!(s.state, TcpState::Listening);
    assert!(!s.is_connected());
}

#[test]
fn new_tcp_session_refuses_a_bad_address() {
    assert!(matches!(
        TcpSession::new("127.0.0.1"),
        Err(SessionError::AddressParse(AddressParseError::MissingPort))
    ));
    assert!(matches!(
        TcpSession::new("127.0.0.256:1"),
        Err(SessionError::AddressParse(AddressParseError::InvalidIp))
    ));
}

#[test]
fn listener_bind_failure_is_a_bind_error() {
    let s = TcpSession::new("127.0.0.1:9100").unwrap();
    assert_eq!(s.bound(Ok(())).unwrap(), s);
    match s.bound(Err(Error::from(ErrorKind::PermissionDenied))) {
        Err(SessionError::Bind(e)) => assert_eq!(e.kind(), ErrorKind::PermissionDenied),
        other => panic!("{:?}", other),
    }
}

#[test]
fn receive_while_listening_is_not_connected() {
    let mut s = TcpSession::new("127.0.0.1:9100").unwrap();
    let seg = segment(b"data");
    assert!(matches!(
        s.receive(5, 0, Attempt::Ready(seg.len()), &seg),
        SessionStep::Failed(SessionError::NotConnected)
    ));
    assert!(matches!(
        s.receive(5, 0, Attempt::WouldBlock, &[]),
        SessionStep::Failed(SessionError::NotConnected)
    ));
    assert!(matches!(
        s.receive(0, 9999, Attempt::WouldBlock, &[]),
        SessionStep::Failed(SessionError::NotConnected)
    ));
    assert!(matches!(
        s.receive(5, 0, Attempt::Failed(Error::from(ErrorKind::Other)), &[]),
        SessionStep::Failed(SessionError::NotConnected)
    ));
    assert!(matches!(s.ready_to_receive(), Err(SessionError::NotConnected)));
}

#[test]
fn send_while_listening_is_not_connected() {
    let mut s = TcpSession::new("127.0.0.1:9100").unwrap();
    assert!(matches!(s.send(b"hello"), Err(SessionError::NotConnected)));
    assert!(matches!(s.send(&[]), Err(SessionError::NotConnected)));
}

#[test]
fn wait_for_connection_times_out_after_the_wait() {
    let mut s = TcpSession::new("127.0.0.1:9100").unwrap();
    for elapsed in [0u128, 1, 500, 999] {
        assert!(matches!(
            s.wait_for_connection(1, elapsed, Attempt::WouldBlock),
            SessionStep::Retry
        ));
    }
    assert!(matches!(
        s.wait_for_connection(1, 1000, Attempt::WouldBlock),
        SessionStep::Failed(SessionError::Timeout)
    ));
    assert_eq!(s.state, TcpState::Listening);
    assert_eq!(s.remote, None);
}

#[test]
fn wait_for_connection_with_zero_wait_still_takes_a_waiting_peer() {
    let mut s = TcpSession::new("127.0.0.1:9100").unwrap();
    assert!(matches!(
        s.wait_for_connection(0, 0, Attempt::WouldBlock),
        SessionStep::Failed(SessionError::Timeout)
    ));
    let peer = AddressSpec { ipv4_octets: [10, 0, 0, 2], port: 5555 };
    assert!(matches!(
        s.wait_for_connection(0, 0, Attempt::Ready(peer)),
        SessionStep::Done(0)
    ));
    assert!(s.is_connected());
}

#[test]
fn accepted_peer_connects_the_session() {
    let mut s = TcpSession::new("127.0.0.1:9100").unwrap();
    let peer = AddressSpec { ipv4_octets: [10, 0, 0, 2], port: 5555 };
    assert!(matches!(
        s.wait_for_connection(10, 2750, Attempt::Ready(peer)),
        SessionStep::Done(2)
    ));
    assert_eq!(s.state, TcpState::Connected);
    assert_eq!(s.remote, Some(peer));
    assert_eq!(s.local.port, 9100);
    assert!(matches!(s.ready_to_receive(), Ok(())));
}

#[test]
fn failed_accept_is_handed_on_and_changes_nothing() {
    let mut s = TcpSession::new("127.0.0.1:9100").unwrap();
    let before = s;
    match s.wait_for_connection(5, 10, Attempt::Failed(Error::from(ErrorKind::Interrupted))) {
        SessionStep::Failed(SessionError::Io(e)) => assert_eq!(e.kind(), ErrorKind::Interrupted),
        other => panic!("{:?}", other),
    }
    assert_eq!(s, before);
}

#[test]
fn connect_to_records_the_peer_and_waits_for_the_outcome() {
    let mut s = TcpSession::new("127.0.0.1:9100").unwrap();
    let peer = s.connect_to("93.184.216.34:80").unwrap();
    assert_eq!(peer, AddressSpec { ipv4_octets: [93, 184, 216, 34], port: 80 });
    assert_eq!(s.remote, Some(peer));
    assert_eq!(s.state, TcpState::Listening);
    s.connected(Ok(())).unwrap();
    assert_eq!(s.state, TcpState::Connected);
    assert_eq!(s.remote, Some(peer));
}

#[test]
fn connect_to_refuses_a_hostname() {
    let mut s = TcpSession::new("127.0.0.1:9100").unwrap();
    let before = s;
    assert!(matches!(
        s.connect_to("example.org:80"),
        Err(SessionError::AddressParse(AddressParseError::InvalidIp))
    ));
    assert_eq!(s, before);
}

#[test]
fn refused_connection_is_a_connect_error() {
    let mut s = TcpSession::new("127.0.0.1:9100").unwrap();
    s.connect_to("127.0.0.1:1").unwrap();
    match s.connected(Err(Error::from(ErrorKind::ConnectionRefused))) {
        Err(SessionError::Connect(e)) => assert_eq!(e.kind(), ErrorKind::ConnectionRefused),
        other => panic!("{:?}", other),
    }
    assert_eq!(s.state, TcpState::Listening);
    assert!(matches!(s.send(b"x"), Err(SessionError::NotConnected)));
}

#[test]
fn connected_session_sends_the_payload_as_it_is() {
    let mut s = connected();
    let before = s;
    assert_eq!(s.send(b"hello").unwrap(), b"hello".to_vec());
    assert_eq!(s.send(&[]).unwrap(), Vec::<u8>::new());
    assert_eq!(s, before);
}

#[test]
fn connected_session_decodes_by_the_data_offset() {
    let mut s = connected();
    let seg = segment(b"payload");
    match s.receive(5, 42, Attempt::Ready(seg.len()), &seg) {
        SessionStep::Done(rec) => {
            assert_eq!(rec.datagram.header.data_offset, 6);
            assert_eq!(rec.datagram.header.source_port, 80);
            assert_eq!(rec.datagram.header.destination_port, 1024);
            assert_eq!(rec.datagram.header.options, vec![1, 1, 1, 0]);
            assert!(rec.datagram.header.ack && rec.datagram.header.psh);
            assert_eq!(rec.datagram.data, b"payload".to_vec());
            assert_eq!(rec.datagram.data.len(), seg.len() - 24);
            assert_eq!(rec.wait_millis, 42);
        }
        other => panic!("{:?}", other),
    }
}

#[test]
fn connected_session_reports_undecodable_bytes() {
    let mut s = connected();
    let seg = segment(b"");
    assert!(matches!(
        s.receive(5, 1, Attempt::Ready(1), &seg),
        SessionStep::Failed(SessionError::HeaderDecode(HeaderDecodeError::Truncated))
    ));
    assert!(matches!(
        s.receive(5, 1, Attempt::Ready(23), &seg),
        SessionStep::Failed(SessionError::HeaderDecode(HeaderDecodeError::Truncated))
    ));
    let mut bad = segment(b"abc");
    bad[12] = 0x40;
    assert!(matches!(
        s.receive(5, 1, Attempt::Ready(bad.len()), &bad),
        SessionStep::Failed(SessionError::HeaderDecode(HeaderDecodeError::DataOffsetTooSmall))
    ));
}

#[test]
fn connected_session_times_out_and_hands_on_failures() {
    let mut s = connected();
    assert!(matches!(s.receive(2, 1999, Attempt::WouldBlock, &[]), SessionStep::Retry));
    assert!(matches!(
        s.receive(2, 2000, Attempt::WouldBlock, &[]),
        SessionStep::Failed(SessionError::Timeout)
    ));
    match s.receive(2, 5, Attempt::Failed(Error::from(ErrorKind::ConnectionReset)), &[]) {
        SessionStep::Failed(SessionError::Io(e)) => {
            assert_eq!(e.kind(), ErrorKind::ConnectionReset)
        }
        other => panic!("{:?}", other),
    }
}

#[test]
fn attempts_that_bring_bytes_or_nothing_keep_the_connection() {
    let mut s = connected();
    let seg = segment(b"abc");
    s.receive(5, 1, Attempt::Ready(seg.len()), &seg);
    assert_eq!(s.state, TcpState::Connected);
    s.receive(5, 1, Attempt::Ready(3), &seg);
    assert_eq!(s.state, TcpState::Connected);
    s.receive(5, 1, Attempt::WouldBlock, &seg);
    assert_eq!(s.state, TcpState::Connected);
    s.receive(5, 9000, Attempt::WouldBlock, &seg);
    assert_eq!(s.state, TcpState::Connected);
    s.receive(5, 1, Attempt::Failed(Error::from(ErrorKind::ConnectionReset)), &seg);
    assert_eq!(s.state, TcpState::Connected);
    assert!(s.is_connected());
}

#[test]
fn read_of_no_bytes_closes_the_connection() {
    let mut s = connected();
    let peer = s.remote;
    assert!(matches!(
        s.receive(5, 1, Attempt::Ready(0), &[0u8; 64]),
        SessionStep::Failed(SessionError::HeaderDecode(HeaderDecodeError::Truncated))
    ));
    assert_eq!(s.state, TcpState::Closed);
    assert_eq!(s.remote, peer);
    assert!(!s.is_connected());
}

#[test]
fn closed_session_neither_sends_nor_receives() {
    let mut s = connected();
    s.receive(5, 1, Attempt::Ready(0), &[]);
    let seg = segment(b"abc");
    assert!(matches!(
        s.receive(5, 1, Attempt::Ready(seg.len()), &seg),
        SessionStep::Failed(SessionError::NotConnected)
    ));
    assert!(matches!(
        s.receive(5, 1, Attempt::WouldBlock, &seg),
        SessionStep::Failed(SessionError::NotConnected)
    ));
    assert!(matches!(s.send(b"abc"), Err(SessionError::NotConnected)));
    assert!(matches!(s.ready_to_receive(), Err(SessionError::NotConnected)));
    assert_eq!(s.state, TcpState::Closed);
}

#[test]
fn closed_session_can_accept_again() {
    let mut s = connected();
    s.receive(5, 1, Attempt::Ready(0), &[]);
    let peer = AddressSpec { ipv4_octets: [10, 9, 8, 7], port: 6 };
    assert!(matches!(s.wait_for_connection(1, 10, Attempt::Ready(peer)), SessionStep::Done(0)));
    assert_eq!(s.state, TcpState::Connected);
    assert_eq!(s.remote, Some(peer));
}
