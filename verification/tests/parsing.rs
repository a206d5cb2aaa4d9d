//! Command-line pair parsing and the client's startup decisions.

use agg_tunnel::client::{ClientCli, IpVersion};
use agg_tunnel::text::{parse_key_val, parse_port_pair, parse_u16, u16_to_dec, ParseError};

#[test]
fn ports_parse_in_decimal() {
    assert_eq!(parse_u16("0"), Some(0));
    assert_eq!(parse_u16("22"), Some(22));
    assert_eq!(parse_u16("9000"), Some(9000));
    assert_eq!(parse_u16("65535"), Some(65535));
    assert_eq!(parse_u16("+8080"), Some(8080));
}

#[test]
fn bad_port_text_is_rejected() {
    assert_eq!(parse_u16(""), None);
    assert_eq!(parse_u16("+"), None);
    assert_eq!(parse_u16("65536"), None);
    assert_eq!(parse_u16("99999"), None);
    assert_eq!(parse_u16("12a"), None);
    assert_eq!(parse_u16("-1"), None);
    assert_eq!(parse_u16(" 5"), None);
}

#[test]
fn key_val_splits_at_the_last_colon() {
    assert_eq!(parse_key_val("example.net:80"), Ok(("example.net".to_string(), 80)));
    assert_eq!(parse_key_val("::1]:443"), Ok(("::1]".to_string(), 443)));
    assert_eq!(parse_key_val("host:a:22"), Ok(("host:a".to_string(), 22)));
}

#[test]
fn key_val_without_colon_defaults_the_key() {
    assert_eq!(parse_key_val("22"), Ok((String::new(), 22)));
}

#[test]
fn key_val_rejects_a_bad_value() {
    assert_eq!(parse_key_val("host:port"), Err(ParseError::InvalidValue));
    assert_eq!(parse_key_val("host:70000"), Err(ParseError::InvalidValue));
    assert_eq!(parse_key_val(""), Err(ParseError::InvalidValue));
}

#[test]
fn port_pairs_parse_both_sides() {
    assert_eq!(parse_port_pair("9000:8000"), Ok((9000, 8000)));
    assert_eq!(parse_port_pair("8000"), Ok((0, 8000)));
    assert_eq!(parse_port_pair("bad:8000"), Err(ParseError::InvalidKey));
    assert_eq!(parse_port_pair("9000:bad"), Err(ParseError::InvalidValue));
}

#[test]
fn ports_format_in_decimal() {
    assert_eq!(u16_to_dec(0).as_str(), "0");
    assert_eq!(u16_to_dec(7).as_str(), "7");
    assert_eq!(u16_to_dec(90).as_str(), "90");
    assert_eq!(u16_to_dec(9000).as_str(), "9000");
    assert_eq!(u16_to_dec(65535).as_str(), "65535");
}

fn cli(port: Vec<(u16, u16)>) -> ClientCli {
    ClientCli {
        ipv4: false,
        ipv6: false,
        no_monitor: true,
        all_links: false,
        port,
        global: false,
        once: false,
        tcp: vec!["server.example:5800".to_string()],
    }
}

#[test]
fn zero_server_port_mirrors_the_client_port() {
    let cli = cli(vec![(9000, 8000), (0, 7000)]);
    assert_eq!(cli.effective_ports(), vec![(9000, 8000), (7000, 7000)]);
}

#[test]
fn ip_family_flags_select_a_version() {
    let mut c = cli(Vec::new());
    assert_eq!(c.ip_version(), Some(IpVersion::Both));
    c.ipv4 = true;
    assert_eq!(c.ip_version(), Some(IpVersion::V4));
    c.ipv4 = false;
    c.ipv6 = true;
    assert_eq!(c.ip_version(), Some(IpVersion::V6));
    c.ipv4 = true;
    assert_eq!(c.ip_version(), None);
}

#[test]
fn listen_plan_binds_both_families_by_default() {
    let mut c = cli(Vec::new());
    let plan = c.listen_plan();
    assert!(plan.bind_v4 && plan.bind_v6 && !plan.all_interfaces);

    c.ipv4 = true;
    let plan = c.listen_plan();
    assert!(plan.bind_v4 && !plan.bind_v6);

    c.ipv4 = false;
    c.ipv6 = true;
    c.global = true;
    let plan = c.listen_plan();
    assert!(!plan.bind_v4 && plan.bind_v6 && plan.all_interfaces);
}

#[test]
fn connection_labels_name_the_mapping() {
    assert_eq!(
        agg_tunnel::client::connection_label_text("10.0.0.5:40112", 9000, 8000).as_str(),
        "10.0.0.5:40112: 9000->8000"
    );
}
