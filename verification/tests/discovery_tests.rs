use bulbs::discovery::{is_pong, ping_payload, pong_payload, Discovery};

#[test]
fn payloads_are_the_protocol_magic() {
    assert_eq!(ping_payload(), b"bulbsclientping0".to_vec());
    assert_eq!(pong_payload(), b"bulbsserverpong0".to_vec());
}

#[test]
fn is_pong_requires_an_exact_match() {
    assert!(is_pong(b"bulbsserverpong0"));
    assert!(!is_pong(b"bulbsclientping0"));
    assert!(!is_pong(b"bulbsserverpong"));
    assert!(!is_pong(b"bulbsserverpong00"));
    assert!(!is_pong(b""));
    assert!(!is_pong(b"Bulbsserverpong0"));
}

#[test]
fn probe_with_no_replies_collects_nothing() {
    let probe = Discovery::new();
    assert!(probe.found.is_empty());
}

#[test]
fn probe_collects_only_pong_senders_in_order() {
    let mut probe = Discovery::new();
    probe.on_datagram(b"bulbsserverpong0", "10.0.0.2".to_string());
    probe.on_datagram(b"something else...", "10.0.0.3".to_string());
    probe.on_datagram(b"bulbsserverpong0", "10.0.0.4".to_string());
    assert_eq!(probe.found, vec!["10.0.0.2".to_string(), "10.0.0.4".to_string()]);
}
