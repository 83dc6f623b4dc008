use std::io::{Error, ErrorKind};
use tacklebox::address::AddressSpec;
use tacklebox::session::SessionError;
use tacklebox::{cast, catch, trap};
use tacklebox::{settle, Protocol, DEFAULT_AMOUNT, DEFAULT_PACKET_SIZE, DEFAULT_WAIT_TIME};

fn catch_options(protocol: Protocol, amount: Option<u16>, time: Option<u32>) -> catch::Options {
    catch::Options { protocol, local: String::from("127.0.0.1:3400"), amount, time }
}

#[test]
fn defaults_are_five() {
    assert_eq!(DEFAULT_AMOUNT, 5);
    assert_eq!(DEFAULT_WAIT_TIME, 5);
    assert_eq!(DEFAULT_PACKET_SIZE, 5);
}

#[test]
fn settle_fills_only_what_is_missing() {
    let mut given = Some(9u16);
    assert_eq!(settle(&mut given, 5), 9);
    assert_eq!(given, Some(9));
    let mut missing: Option<u16> = None;
    assert_eq!(settle(&mut missing, 5), 5);
    assert_eq!(missing, Some(5));
}

#[test]
fn catch_run_takes_defaults_where_nothing_is_given() {
    let mut o = catch_options(Protocol::Udp, None, None);
    let run = catch::run_catch(&mut o);
    assert_eq!(o.amount, Some(5));
    assert_eq!(o.time, Some(5));
    assert_eq!(o.local, "127.0.0.1:3400");
    assert_eq!(
        run,
        catch::CatchRun {
            protocol: Protocol::Udp,
            amount: 5,
            wait_time: 5,
            rounds: 0,
            received: 0,
            total_bytes: 0
        }
    );
}

#[test]
fn catch_run_keeps_what_is_given() {
    let mut o = catch_options(Protocol::Tcp, Some(2), Some(30));
    let run = catch::run_catch(&mut o);
    assert_eq!(o.amount, Some(2));
    assert_eq!(o.time, Some(30));
    assert_eq!(run.protocol, Protocol::Tcp);
    assert_eq!(run.amount, 2);
    assert_eq!(run.wait_time, 30);
}

#[test]
fn catch_counts_datagrams_and_bytes() {
    let mut run = catch::run_catch(&mut catch_options(Protocol::Udp, Some(3), None));
    assert!(!run.is_finished());
    run.record(Ok(561)).unwrap();
    run.record(Err(SessionError::Timeout)).unwrap();
    assert!(!run.is_finished());
    run.record(Ok(39)).unwrap();
    assert!(run.is_finished());
    assert_eq!(run.rounds, 3);
    assert_eq!(run.received, 2);
    assert_eq!(run.total_bytes, 600);
}

#[test]
fn catch_with_nothing_asked_for_is_finished_at_once() {
    let run = catch::run_catch(&mut catch_options(Protocol::Udp, Some(0), None));
    assert!(run.is_finished());
}

#[test]
fn catch_stops_on_a_hard_failure() {
    let mut run = catch::run_catch(&mut catch_options(Protocol::Udp, Some(3), None));
    run.record(Ok(10)).unwrap();
    let before = run;
    match run.record(Err(SessionError::Io(Error::from(ErrorKind::ConnectionReset)))) {
        Err(SessionError::Io(e)) => assert_eq!(e.kind(), ErrorKind::ConnectionReset),
        other => panic!("{:?}", other),
    }
    assert_eq!(run, before);
    assert!(matches!(
        run.record(Err(SessionError::NotConnected)),
        Err(SessionError::NotConnected)
    ));
    assert_eq!(run, before);
}

#[test]
fn catch_on_tcp_stops_on_a_timeout() {
    let mut run = catch::run_catch(&mut catch_options(Protocol::Tcp, Some(3), None));
    let before = run;
    assert!(matches!(run.record(Err(SessionError::Timeout)), Err(SessionError::Timeout)));
    assert_eq!(run, before);
}

#[test]
fn catch_lines() {
    assert_eq!(
        catch::print_header(),
        "AVG TIME            TOTAL BYTES         PACKETS RECEIVED    "
    );
    assert_eq!(
        catch::print_stats("2.5", 600, "0.8"),
        "2.5s                600                 0.8%                "
    );
    assert_eq!(catch::print_header().len(), 60);
}

fn cast_options(local: Option<&str>, amount: Option<u16>, time: Option<u32>) -> cast::Options {
    cast::Options {
        protocol: Protocol::Udp,
        local: local.map(String::from),
        remote: String::from("127.0.0.1:8080"),
        payload: String::from("hello"),
        amount,
        time,
    }
}

#[test]
fn cast_run_takes_the_given_local_address() {
    let mut o = cast_options(Some("127.0.0.1:3400"), None, Some(1));
    let run = cast::run_cast(&mut o);
    assert_eq!(run.local, "127.0.0.1:3400");
    assert_eq!(run.amount, 5);
    assert_eq!(run.wait_time, 1);
    assert_eq!(run.protocol, Protocol::Udp);
    assert_eq!(o.amount, Some(5));
    assert_eq!(o.time, Some(1));
    assert_eq!(o.local.as_deref(), Some("127.0.0.1:3400"));
    assert_eq!(o.remote, "127.0.0.1:8080");
    assert_eq!(o.payload, "hello");
}

#[test]
fn cast_run_picks_a_loopback_address_when_none_is_given() {
    let mut o = cast_options(None, Some(1), None);
    let run = cast::run_cast(&mut o);
    let a = AddressSpec::parse(&run.local).unwrap();
    assert_eq!(a.ipv4_octets, [127, 0, 0, 1]);
    assert!(2000 <= a.port && a.port < 65353);
    assert_eq!(o.local, None);
}

#[test]
fn cast_reader_binds_the_remote_port_on_loopback() {
    assert_eq!(cast::reader_local(8080), "127.0.0.1:8080");
    assert_eq!(cast::reader_local(0), "127.0.0.1:0");
    assert_eq!(cast::reader_local(65535), "127.0.0.1:65535");
}

#[test]
fn cast_lines() {
    assert_eq!(
        cast::print_header(),
        "PACKET NUMBER       WAIT TIME           BYTES READ          "
    );
    assert_eq!(
        cast::print_stats(0, 3, 5),
        "0                   3s                  5                   "
    );
    assert_eq!(
        cast::print_stats(65535, 4294967295, 65507),
        "65535               4294967295s         65507               "
    );
}

fn trap_options() -> trap::Options {
    trap::Options {
        local: Some(String::from("127.0.0.1:3400")),
        remote: String::from("127.0.0.1:8080"),
        amount: None,
        packet_size: None,
        time: None,
    }
}

#[test]
fn trap_run_takes_defaults_where_nothing_is_given() {
    let mut o = trap_options();
    let run = trap::run_trap(&mut o);
    assert_eq!((run.amount, run.size, run.wait_time), (5, 5, 5));
    assert_eq!((run.rounds, run.received), (0, 0));
    assert_eq!(run.local, "127.0.0.1:3400");
    assert_eq!((o.amount, o.packet_size, o.time), (Some(5), Some(5), Some(5)));
}

#[test]
fn trap_run_keeps_what_is_given() {
    let mut o = trap_options();
    o.amount = Some(10);
    o.packet_size = Some(1400);
    o.time = Some(2);
    o.local = None;
    let run = trap::run_trap(&mut o);
    assert_eq!((run.amount, run.size, run.wait_time), (10, 1400, 2));
    assert_eq!(AddressSpec::parse(&run.local).unwrap().ipv4_octets, [127, 0, 0, 1]);
}

#[test]
fn trap_payload_is_ones() {
    let mut o = trap_options();
    assert_eq!(trap::run_trap(&mut o).payload(), vec![1u8; 5]);
    o.packet_size = Some(0);
    assert_eq!(trap::run_trap(&mut o).payload(), Vec::<u8>::new());
    o.packet_size = Some(1400);
    assert_eq!(trap::run_trap(&mut o).payload(), vec![1u8; 1400]);
}

#[test]
fn trap_counts_answered_probes() {
    let mut o = trap_options();
    o.amount = Some(3);
    let mut run = trap::run_trap(&mut o);
    run.record(true);
    run.record(false);
    assert!(!run.is_finished());
    run.record(true);
    assert!(run.is_finished());
    assert_eq!(run.rounds, 3);
    assert_eq!(run.received, 2);
}

#[test]
fn trap_lines() {
    assert_eq!(
        trap::print_header(),
        "AMOUNT SENT         PACKET SIZE         PACKETS RECEIVED    "
    );
    assert_eq!(
        trap::print_stats(5, 1400, 4),
        "5                   1400                4                   "
    );
}
