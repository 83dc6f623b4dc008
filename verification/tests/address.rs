use tacklebox::address::{AddressParseError, AddressSpec};
use tacklebox::{loopback, random_local, ParseErr, Protocol, RANDOM_PORT_HIGH, RANDOM_PORT_LOW};

#[test]
fn parses_loopback_with_port() {
    let a = AddressSpec::parse("127.0.0.1:9001").unwrap();
    assert_eq!(a.ipv4_octets, [127, 0, 0, 1]);
    assert_eq!(a.port, 9001);
}

#[test]
fn canonical_text_round_trips() {
    for s in [
        "127.0.0.1:9001",
        "0.0.0.0:0",
        "255.255.255.255:65535",
        "10.20.30.40:80",
        "1.22.133.4:10000",
        "192.168.1.100:9",
    ] {
        assert_eq!(AddressSpec::parse(s).unwrap().format(), s);
    }
}

#[test]
fn formatted_address_parses_back() {
    for a in [
        AddressSpec { ipv4_octets: [0, 0, 0, 0], port: 0 },
        AddressSpec { ipv4_octets: [255, 255, 255, 255], port: 65535 },
        AddressSpec { ipv4_octets: [10, 0, 200, 9], port: 99 },
        AddressSpec { ipv4_octets: [100, 99, 9, 10], port: 1000 },
    ] {
        assert_eq!(AddressSpec::parse(&a.format()), Ok(a));
    }
}

#[test]
fn format_is_dotted_decimal_colon_port() {
    let a = AddressSpec { ipv4_octets: [192, 168, 0, 7], port: 8080 };
    assert_eq!(a.format(), "192.168.0.7:8080");
}

#[test]
fn port_may_carry_a_sign_and_leading_zeros() {
    let plain = AddressSpec { ipv4_octets: [127, 0, 0, 1], port: 80 };
    assert_eq!(AddressSpec::parse("127.0.0.1:+80"), Ok(plain));
    assert_eq!(AddressSpec::parse("127.0.0.1:0080"), Ok(plain));
    assert_eq!(AddressSpec::parse("127.0.0.1:0000000000000000000080"), Ok(plain));
    assert_eq!(AddressSpec::parse("127.0.0.1:+80").unwrap().format(), "127.0.0.1:80");
}

#[test]
fn text_without_colon_is_missing_port() {
    assert_eq!(AddressSpec::parse("127.0.0.1"), Err(AddressParseError::MissingPort));
    assert_eq!(AddressSpec::parse(""), Err(AddressParseError::MissingPort));
}

#[test]
fn hostnames_are_rejected() {
    assert_eq!(AddressSpec::parse("localhost:80"), Err(AddressParseError::InvalidIp));
    assert_eq!(AddressSpec::parse("example.com:80"), Err(AddressParseError::InvalidIp));
}

#[test]
fn malformed_ip_is_invalid_ip() {
    for s in [
        ":80",
        "1.2.3:80",
        "1.2.3.4.5:80",
        "256.0.0.1:80",
        "1.2.3.999:80",
        "01.2.3.4:80",
        "1.2.3.04:80",
        "1..3.4:80",
        "1.2.3.:80",
        ".1.2.3:80",
        "1.2.3.4 :80",
        "1.2.3.1000:80",
        "::1:80",
        "1.2.3.4:5:80",
        "+1.2.3.4:80",
        "1.2.3.٤:80",
    ] {
        assert_eq!(AddressSpec::parse(s), Err(AddressParseError::InvalidIp), "{}", s);
    }
}

#[test]
fn malformed_port_is_invalid_port() {
    for s in [
        "1.2.3.4:",
        "1.2.3.4:65536",
        "1.2.3.4:99999999999999999999",
        "1.2.3.4:-1",
        "1.2.3.4:+",
        "1.2.3.4:++1",
        "1.2.3.4:8o",
        "1.2.3.4: 80",
        "1.2.3.4:80 ",
        "1.2.3.4:0x50",
    ] {
        assert_eq!(AddressSpec::parse(s), Err(AddressParseError::InvalidPort), "{}", s);
    }
}

#[test]
fn split_is_at_the_last_colon() {
    // The part before the last colon holds a colon, so it is no address.
    assert_eq!(AddressSpec::parse("1.2.3.4:80:90"), Err(AddressParseError::InvalidIp));
}

#[test]
fn largest_and_smallest_port_are_accepted() {
    assert_eq!(AddressSpec::parse("1.2.3.4:0").unwrap().port, 0);
    assert_eq!(AddressSpec::parse("1.2.3.4:65535").unwrap().port, 65535);
}

#[test]
fn loopback_is_127_0_0_1() {
    assert_eq!(loopback(3400), AddressSpec { ipv4_octets: [127, 0, 0, 1], port: 3400 });
    assert_eq!(loopback(3400).format(), "127.0.0.1:3400");
}

#[test]
fn random_local_is_loopback_on_a_port_in_range() {
    let mut seen = std::collections::BTreeSet::new();
    for _ in 0..200 {
        let text = random_local();
        let a = AddressSpec::parse(&text).unwrap();
        assert_eq!(a.ipv4_octets, [127, 0, 0, 1]);
        assert!(RANDOM_PORT_LOW <= a.port && a.port < RANDOM_PORT_HIGH);
        assert_eq!(a.format(), text);
        seen.insert(a.port);
    }
    // A generator that returned its lower bound every time would not do.
    assert!(seen.len() > 1);
}

#[test]
fn protocol_names_are_read() {
    assert_eq!(Protocol::from_str("udp"), Ok(Protocol::Udp));
    assert_eq!(Protocol::from_str("tcp"), Ok(Protocol::Tcp));
    assert_eq!("udp".parse::<Protocol>(), Ok(Protocol::Udp));
    assert_eq!("tcp".parse::<Protocol>(), Ok(Protocol::Tcp));
}

#[test]
fn other_protocol_names_are_refused() {
    for s in ["", "UDP", "Tcp", "udp ", "ud", "tcpp", "icmp", "tdp", "ucp", "udq"] {
        assert_eq!(Protocol::from_str(s), Err(ParseErr::Protocol), "{}", s);
        assert_eq!(s.parse::<Protocol>(), Err(ParseErr::Protocol), "{}", s);
    }
}

#[test]
fn protocol_name_reads_back() {
    assert_eq!(Protocol::Udp.name(), "udp");
    assert_eq!(Protocol::Tcp.name(), "tcp");
    for p in [Protocol::Udp, Protocol::Tcp] {
        assert_eq!(Protocol::from_str(p.name()), Ok(p));
    }
}

#[test]
fn protocol_parse_error_message() {
    assert_eq!(ParseErr::Protocol.message(), "Invalid protocol");
}
