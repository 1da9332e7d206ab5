use rovs::transport::address::Address;
use rovs::transport::error::Error;
use rovs::transport::reconnect::{Reconnect, DEFAULT_MAX_BACKOFF_NANOS, INITIAL_BACKOFF_NANOS};

#[test]
fn parse_unix() {
    let addr: Address = "unix:/var/run/openvswitch/db.sock".parse().unwrap();
    assert_eq!(addr, Address::Unix("/var/run/openvswitch/db.sock".to_owned()));
}

#[test]
fn parse_tcp() {
    let addr: Address = "tcp:127.0.0.1:6640".parse().unwrap();
    assert_eq!(addr, Address::Tcp { host: "127.0.0.1".to_owned(), port: 6640 });
}

#[test]
fn parse_ssl() {
    let addr: Address = "ssl:ovs.example.com:6640".parse().unwrap();
    assert_eq!(addr, Address::Tls { host: "ovs.example.com".to_owned(), port: 6640 });
}

fn invalid_message(r: Result<Address, Error>) -> String {
    match r {
        Err(Error::InvalidAddress(m)) => m,
        other => panic!("expected an invalid address, got {:?}", other),
    }
}

#[test]
fn parse_unknown_scheme() {
    assert_eq!(
        invalid_message(Address::parse("http:example.com:80")),
        "unknown scheme in address: http:example.com:80"
    );
}

#[test]
fn parse_missing_port() {
    assert_eq!(invalid_message(Address::parse("tcp:localhost")), "missing port in address: localhost");
}

#[test]
fn parse_invalid_port() {
    assert_eq!(invalid_message(Address::parse("tcp:localhost:abc")), "invalid port: abc");
    assert_eq!(invalid_message(Address::parse("tcp:localhost:65536")), "invalid port: 65536");
    assert_eq!(invalid_message(Address::parse("tcp:localhost:")), "invalid port: ");
    assert_eq!(invalid_message(Address::parse("ssl:h:-1")), "invalid port: -1");
}

#[test]
fn parse_port_edge_values() {
    assert_eq!(Address::parse("tcp:h:65535").unwrap(), Address::Tcp { host: "h".to_owned(), port: 65535 });
    assert_eq!(Address::parse("tcp:h:+80").unwrap(), Address::Tcp { host: "h".to_owned(), port: 80 });
    assert_eq!(Address::parse("tcp:h:0080").unwrap(), Address::Tcp { host: "h".to_owned(), port: 80 });
}

#[test]
fn parse_splits_at_last_colon() {
    let addr = Address::parse("tcp:::1:6640").unwrap();
    assert_eq!(addr, Address::Tcp { host: "::1".to_owned(), port: 6640 });
}

#[test]
fn address_text_roundtrip() {
    let samples = vec![
        Address::Unix("/tmp/db.sock".to_owned()),
        Address::Tcp { host: "10.0.0.1".to_owned(), port: 6653 },
        Address::Tls { host: "::1".to_owned(), port: 0 },
    ];
    for a in samples {
        let text = a.to_string();
        assert_eq!(Address::parse(&text).unwrap(), a);
    }
    assert_eq!(Address::Tcp { host: "h".to_owned(), port: 6640 }.to_string(), "tcp:h:6640");
}

#[test]
fn reconnect_starts_disconnected_and_connects_at_once() {
    let r = Reconnect::new();
    assert!(!r.is_connected());
    assert!(r.should_connect());
    assert_eq!(r.current_backoff(), INITIAL_BACKOFF_NANOS);
}

#[test]
fn reconnect_backoff_doubles_up_to_cap() {
    let mut r = Reconnect::new();
    r.increase_backoff();
    assert_eq!(r.current_backoff(), 2_000_000_000);
    r.increase_backoff();
    assert_eq!(r.current_backoff(), 4_000_000_000);
    r.increase_backoff();
    assert_eq!(r.current_backoff(), DEFAULT_MAX_BACKOFF_NANOS);
    r.increase_backoff();
    assert_eq!(r.current_backoff(), DEFAULT_MAX_BACKOFF_NANOS);
    r.set_max_backoff(3_000_000_000);
    r.increase_backoff();
    assert_eq!(r.current_backoff(), 3_000_000_000);
}

#[test]
fn reconnect_connected_resets_backoff() {
    let mut r = Reconnect::new();
    r.increase_backoff();
    r.connecting();
    assert!(!r.should_connect());
    r.connected();
    assert!(r.is_connected());
    assert!(!r.should_connect());
    assert_eq!(r.current_backoff(), INITIAL_BACKOFF_NANOS);
}

#[test]
fn reconnect_waits_for_backoff_after_disconnect() {
    let mut r = Reconnect::new();
    r.connected();
    r.disconnected();
    assert!(!r.is_connected());
    assert!(!r.should_connect_at(INITIAL_BACKOFF_NANOS - 1));
    assert!(r.should_connect_at(INITIAL_BACKOFF_NANOS));
    assert!(!r.should_connect());
    r.activity();
    assert!(!r.is_connected());
}

#[test]
fn reconnect_history_follows_the_latest_link_call() {
    let mut r = Reconnect::new();
    r.connecting();
    r.connected();
    r.activity();
    r.increase_backoff();
    r.set_max_backoff(DEFAULT_MAX_BACKOFF_NANOS * 2);
    assert!(r.is_connected());
    assert!(!r.should_connect_at(u128::MAX));
    r.disconnected();
    r.activity();
    r.increase_backoff();
    assert!(!r.is_connected());
    let b = r.current_backoff();
    assert_eq!(b, INITIAL_BACKOFF_NANOS * 4);
    assert!(r.should_connect_at(b));
    assert!(!r.should_connect_at(b - 1));
    r.connecting();
    assert!(!r.is_connected());
    assert!(!r.should_connect_at(u128::MAX));
}
