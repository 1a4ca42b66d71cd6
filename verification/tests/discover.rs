use squeezelite_mpris::discover::{
    discover, parse_hostname, parse_port, parse_reply, parse_tag, parse_uuid, parse_version,
    probe_message, DiscoverError, DiscoveryAction, DiscoveryEvent, ParseError, DISCOVERY_PORT,
};

fn field(tag: &str, value: &[u8]) -> Vec<u8> {
    let mut bytes = tag.as_bytes().to_vec();
    bytes.push(value.len() as u8);
    bytes.extend_from_slice(value);
    bytes
}

fn datagram(hostname: &str, port: &str, uuid: &str, version: &str) -> Vec<u8> {
    let mut bytes = field("ENAME", hostname.as_bytes());
    bytes.extend(field("JSON", port.as_bytes()));
    bytes.extend(field("UUID", uuid.as_bytes()));
    bytes.extend(field("VERS", version.as_bytes()));
    bytes
}

#[test]
fn reply_of_the_documented_example() {
    let input =
        b"ENAME\x10myhostname123456JSON\x049000UUID$e9b557b8-92e2-45cd-8a95-8730ffd604a5VERS\x058.3.1";
    let (rest, reply) = parse_reply(input).unwrap();
    assert!(rest.is_empty());
    assert_eq!(reply.hostname, "myhostname123456");
    assert_eq!(reply.port, 9000);
    assert_eq!(reply.uuid, "e9b557b8-92e2-45cd-8a95-8730ffd604a5");
    assert_eq!(reply.version, "8.3.1");
}

#[test]
fn reply_round_trip() {
    let cases = [
        ("lms", 9000u16, "e9b557b8", "8.3.1"),
        ("", 0, "", ""),
        ("h\u{f6}st-\u{1f3b5}", 65535, "uuid", "9.0.0-beta"),
    ];
    for (hostname, port, uuid, version) in cases {
        let input = datagram(hostname, &port.to_string(), uuid, version);
        let (rest, reply) = parse_reply(&input).unwrap();
        assert!(rest.is_empty());
        assert_eq!(reply.hostname, hostname);
        assert_eq!(reply.port, port);
        assert_eq!(reply.uuid, uuid);
        assert_eq!(reply.version, version);
    }
}

#[test]
fn reply_with_longest_values() {
    let long = "x".repeat(255);
    let input = datagram(&long, "1", &long, &long);
    let (rest, reply) = parse_reply(&input).unwrap();
    assert!(rest.is_empty());
    assert_eq!(reply.hostname, long);
    assert_eq!(reply.uuid, long);
    assert_eq!(reply.version, long);
}

#[test]
fn reply_in_a_padded_receive_buffer() {
    let mut buffer = [0u8; 1024];
    let input = datagram("lms", "9000", "id", "8.3.1");
    buffer[..input.len()].copy_from_slice(&input);
    let (rest, reply) = parse_reply(&buffer).unwrap();
    assert_eq!(rest.len(), 1024 - input.len());
    assert!(rest.iter().all(|b| *b == 0));
    assert_eq!(reply.hostname, "lms");
    assert_eq!(reply.port, 9000);
}

#[test]
fn reply_without_version_fails() {
    let mut input = field("ENAME", b"lms");
    input.extend(field("JSON", b"9000"));
    input.extend(field("UUID", b"id"));
    assert_eq!(parse_reply(&input).unwrap_err(), ParseError::Tag);
}

#[test]
fn reply_with_fields_out_of_order_fails() {
    let mut input = field("JSON", b"9000");
    input.extend(field("ENAME", b"lms"));
    input.extend(field("UUID", b"id"));
    input.extend(field("VERS", b"8.3.1"));
    assert_eq!(parse_reply(&input).unwrap_err(), ParseError::Tag);
}

#[test]
fn reply_with_non_numeric_port_fails() {
    for port in ["http", "", "90a0", " 9000", "9000 ", "-1", "+", "9_000", "0x50"] {
        let input = datagram("lms", port, "id", "8.3.1");
        assert_eq!(parse_reply(&input).unwrap_err(), ParseError::Port, "port {:?}", port);
    }
}

#[test]
fn reply_with_port_out_of_range_fails() {
    for port in ["65536", "70000", "99999999999999999999999999"] {
        let input = datagram("lms", port, "id", "8.3.1");
        assert_eq!(parse_reply(&input).unwrap_err(), ParseError::Port, "port {:?}", port);
    }
}

#[test]
fn port_forms_that_the_standard_library_reads() {
    for (text, port) in [("0", 0u16), ("65535", 65535), ("+80", 80), ("0009000", 9000)] {
        assert_eq!(text.parse::<u16>().unwrap(), port);
        let input = field("JSON", text.as_bytes());
        let (rest, found) = parse_port(&input).unwrap();
        assert!(rest.is_empty());
        assert_eq!(found, port);
    }
}

#[test]
fn port_agrees_with_the_standard_library() {
    let texts = [
        "", "+", "-", "++1", "+-1", "1+", "12", "012", "65535", "65536", "+65535", "+65536",
        "000000000000000000000000000065535", "655350", "1e3", "١٢", "9000\0",
    ];
    for text in texts {
        let input = field("JSON", text.as_bytes());
        let expected = text.parse::<u16>().ok();
        let found = parse_port(&input).ok().map(|(_, port)| port);
        assert_eq!(found, expected, "text {:?}", text);
    }
}

#[test]
fn declared_length_past_the_end_fails() {
    let mut input = b"ENAME".to_vec();
    input.push(200);
    input.extend_from_slice(b"short");
    assert_eq!(parse_reply(&input).unwrap_err(), ParseError::Truncated);
    assert_eq!(parse_hostname(&input).unwrap_err(), ParseError::Truncated);

    let mut input = datagram("lms", "9000", "id", "8.3.1");
    input.pop();
    assert_eq!(parse_reply(&input).unwrap_err(), ParseError::Truncated);
}

#[test]
fn missing_length_byte_fails() {
    assert_eq!(parse_hostname(b"ENAME").unwrap_err(), ParseError::Truncated);
}

#[test]
fn wrong_or_short_tag_fails() {
    assert_eq!(parse_hostname(b"").unwrap_err(), ParseError::Tag);
    assert_eq!(parse_hostname(b"ENAM").unwrap_err(), ParseError::Tag);
    assert_eq!(parse_hostname(b"eNAME\x00").unwrap_err(), ParseError::Tag);
    assert_eq!(parse_uuid(b"VERS\x00").unwrap_err(), ParseError::Tag);
    assert_eq!(parse_version(b"UUID\x00").unwrap_err(), ParseError::Tag);
    assert_eq!(parse_port(b"PORT\x00").unwrap_err(), ParseError::Tag);
}

#[test]
fn value_that_is_not_utf8_fails() {
    let input = field("ENAME", &[0x66, 0xff, 0x6f]);
    assert_eq!(parse_hostname(&input).unwrap_err(), ParseError::Utf8);
    let input = field("JSON", &[0x39, 0xc3]);
    assert_eq!(parse_port(&input).unwrap_err(), ParseError::Utf8);
    let input = field("UUID", &[0xed, 0xa0, 0x80]);
    assert_eq!(parse_uuid(&input).unwrap_err(), ParseError::Utf8);
}

#[test]
fn tag_of_the_caller() {
    let input = field("IPAD", b"192.168.1.2");
    let (rest, text) = parse_tag(&input, "IPAD").unwrap();
    assert!(rest.is_empty());
    assert_eq!(text, "192.168.1.2");
    let (rest, text) = parse_tag(b"\x03abcdef", "").unwrap();
    assert_eq!(rest, b"def");
    assert_eq!(text, "abc");
}

#[test]
fn empty_values_and_what_is_left() {
    let (rest, text) = parse_version(b"VERS\x00tail").unwrap();
    assert_eq!(text, "");
    assert_eq!(rest, b"tail");
}

#[test]
fn probe_asks_for_the_four_values() {
    assert_eq!(probe_message(), b"eNAME\0JSON\0UUID\0VERS\0");
    assert_eq!(DISCOVERY_PORT, 3483);
}

#[test]
fn discovery_probes_at_the_start_and_after_each_timeout() {
    assert!(matches!(
        discover(100, DiscoveryEvent::Started),
        DiscoveryAction::Probe { reply_timeout: 100 }
    ));
    assert!(matches!(
        discover(100, DiscoveryEvent::AttemptTimedOut),
        DiscoveryAction::Probe { reply_timeout: 100 }
    ));
    assert!(matches!(
        discover(0, DiscoveryEvent::AttemptTimedOut),
        DiscoveryAction::Probe { reply_timeout: 0 }
    ));
}

#[test]
fn discovery_ends_with_the_reply_and_its_source() {
    let mut payload = datagram("lms.local", "9000", "id", "8.3.1");
    payload.resize(1024, 0);
    let action = discover(
        100,
        DiscoveryEvent::Datagram { source: "192.168.1.10".to_string(), payload },
    );
    match action {
        DiscoveryAction::Finish(Ok(found)) => {
            assert_eq!(found.address, "192.168.1.10");
            assert_eq!(found.reply.hostname, "lms.local");
            assert_eq!(found.reply.port, 9000);
            assert_eq!(found.reply.uuid, "id");
            assert_eq!(found.reply.version, "8.3.1");
        }
        other => panic!("unexpected action {:?}", other),
    }
}

#[test]
fn discovery_does_not_retry_after_a_malformed_reply() {
    let action = discover(
        100,
        DiscoveryEvent::Datagram { source: "192.168.1.10".to_string(), payload: vec![0; 1024] },
    );
    assert!(matches!(
        action,
        DiscoveryAction::Finish(Err(DiscoverError::Parse(ParseError::Tag)))
    ));
    let action = discover(
        100,
        DiscoveryEvent::Datagram {
            source: "192.168.1.10".to_string(),
            payload: datagram("lms", "port", "id", "8.3.1"),
        },
    );
    assert!(matches!(
        action,
        DiscoveryAction::Finish(Err(DiscoverError::Parse(ParseError::Port)))
    ));
}

#[test]
fn discovery_ends_on_a_failure_of_the_transport() {
    let action = discover(
        100,
        DiscoveryEvent::TransportFailed { cause: "network unreachable".to_string() },
    );
    assert!(matches!(
        action,
        DiscoveryAction::Finish(Err(DiscoverError::Transport { cause }))
            if cause == "network unreachable"
    ));
}

#[test]
fn discovery_ends_at_the_deadline() {
    let action = discover(100, DiscoveryEvent::DeadlineElapsed { seconds: 3 });
    assert!(matches!(
        action,
        DiscoveryAction::Finish(Err(DiscoverError::Timeout { seconds: 3 }))
    ));
}
