//! The multiplex header, the destination table and the router.

use agg_tunnel::protocol::{decode_port, encode_port};
use agg_tunnel::server::{route, RouteDecision, ServerCli};
use agg_tunnel::table::{localhost_target_text, DestinationTable};

#[test]
fn header_is_big_endian() {
    assert_eq!(encode_port(9000), vec![0x23, 0x28]);
    assert_eq!(encode_port(0), vec![0x00, 0x00]);
    assert_eq!(encode_port(5), vec![0x00, 0x05]);
    assert_eq!(encode_port(0xffff), vec![0xff, 0xff]);
    assert_eq!(encode_port(256), vec![0x01, 0x00]);
}

#[test]
fn header_round_trips() {
    for port in [0u16, 1, 5, 255, 256, 8000, 9000, 0x1234, 0xffff] {
        let bytes = encode_port(port);
        assert_eq!(decode_port(bytes[0], bytes[1]), port);
    }
}

#[test]
fn table_lookup_hits_and_misses() {
    let mut table = DestinationTable::new();
    table.insert(9000, "127.0.0.1:22".to_string());
    table.insert(8080, "example.net:80".to_string());
    assert_eq!(table.lookup(9000).map(|s| s.as_str()), Some("127.0.0.1:22"));
    assert_eq!(table.lookup(8080).map(|s| s.as_str()), Some("example.net:80"));
    assert!(table.lookup(5).is_none());
}

#[test]
fn table_last_entry_wins() {
    let mut table = DestinationTable::new();
    table.insert(9000, "first:1".to_string());
    table.insert(9000, "second:2".to_string());
    assert_eq!(table.lookup(9000).map(|s| s.as_str()), Some("second:2"));
}

#[test]
fn build_resolves_empty_target_to_loopback() {
    let cli = ServerCli {
        no_monitor: true,
        port: vec![(String::new(), 22), ("10.0.0.7:5900".to_string(), 5900)],
        tcp: Some(5800),
    };
    let table = cli.destination_table();
    assert_eq!(table.lookup(22).map(|s| s.as_str()), Some("127.0.0.1:22"));
    assert_eq!(table.lookup(5900).map(|s| s.as_str()), Some("10.0.0.7:5900"));
}

#[test]
fn loopback_target_text() {
    assert_eq!(localhost_target_text(22).as_str(), "127.0.0.1:22");
    assert_eq!(localhost_target_text(0).as_str(), "127.0.0.1:0");
    assert_eq!(localhost_target_text(65535).as_str(), "127.0.0.1:65535");
}

#[test]
fn mapped_port_dials_its_target() {
    let mut table = DestinationTable::new();
    table.insert(9000, "127.0.0.1:22".to_string());
    let header = encode_port(9000);
    assert_eq!(header, vec![0x23, 0x28]);
    match route(&table, &header) {
        RouteDecision::Dial { port, target } => {
            assert_eq!(port, 9000);
            assert_eq!(target, "127.0.0.1:22");
        }
        other => panic!("expected a dial, got {other:?}"),
    }
}

#[test]
fn unmapped_port_is_dropped_without_dialing() {
    let mut table = DestinationTable::new();
    table.insert(9000, "127.0.0.1:22".to_string());
    match route(&table, &vec![0x00, 0x05]) {
        RouteDecision::NoEntry { port } => assert_eq!(port, 5),
        other => panic!("expected no entry, got {other:?}"),
    }
}

#[test]
fn short_header_ends_the_attempt() {
    let mut table = DestinationTable::new();
    table.insert(9000, "127.0.0.1:22".to_string());
    assert!(matches!(route(&table, &Vec::new()), RouteDecision::MissingHeader));
    assert!(matches!(route(&table, &vec![0x23]), RouteDecision::MissingHeader));
}

#[test]
fn route_label_names_port_and_target() {
    assert_eq!(
        agg_tunnel::server::route_label_text(9000, "127.0.0.1:22").as_str(),
        "9000 -> 127.0.0.1:22"
    );
}

#[test]
fn channel_label_falls_back_to_a_placeholder() {
    let target = "127.0.0.1:22".to_string();
    assert_eq!(
        agg_tunnel::server::channel_label(Some((9000, &target))).as_str(),
        "9000 -> 127.0.0.1:22"
    );
    assert_eq!(agg_tunnel::server::channel_label(None).as_str(), "unknown");
}
