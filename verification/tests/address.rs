use rusty_fridge::address::{base_name, parse_port, parse_server_address, ServerAddressError};

#[test]
fn server_address_splits_host_and_port() {
    let a = parse_server_address("broker.example.org:8883").unwrap();
    assert_eq!(a.host, "broker.example.org");
    assert_eq!(a.port, 8883);
}

#[test]
fn server_address_without_colon_has_no_port() {
    assert_eq!(parse_server_address("localhost").unwrap_err(), ServerAddressError::MissingPort);
    assert_eq!(parse_server_address("").unwrap_err(), ServerAddressError::MissingPort);
}

#[test]
fn server_address_with_bad_port_is_refused() {
    assert_eq!(parse_server_address("host:").unwrap_err(), ServerAddressError::InvalidPort);
    assert_eq!(parse_server_address("host:abc").unwrap_err(), ServerAddressError::InvalidPort);
    assert_eq!(parse_server_address("host:65536").unwrap_err(), ServerAddressError::InvalidPort);
    assert_eq!(parse_server_address("host:-1").unwrap_err(), ServerAddressError::InvalidPort);
}

#[test]
fn server_address_reads_port_up_to_next_colon() {
    let a = parse_server_address("host:1883:extra").unwrap();
    assert_eq!(a.host, "host");
    assert_eq!(a.port, 1883);
    let b = parse_server_address(":80").unwrap();
    assert_eq!(b.host, "");
    assert_eq!(b.port, 80);
}

#[test]
fn port_reads_like_u16_from_str() {
    for text in ["0", "1", "65535", "65536", "+80", "+", "-", "", "007", "1a", "99999999999", "٣", "+-1", "++1"] {
        assert_eq!(parse_port(text), text.parse::<u16>().ok(), "text {:?}", text);
    }
}

#[test]
fn port_values() {
    assert_eq!(parse_port("8883"), Some(8883));
    assert_eq!(parse_port("+1883"), Some(1883));
    assert_eq!(parse_port("00065535"), Some(65535));
    assert_eq!(parse_port("65536"), None);
}

#[test]
fn base_name_joins_prefix_and_instance() {
    assert_eq!(base_name("rusty-fridge", "0"), "rusty-fridge/0");
    assert_eq!(base_name("", ""), "/");
}

#[test]
fn server_address_round_trip() {
    for port in [0u16, 1, 1883, 8883, 65535] {
        let a = parse_server_address(&format!("mqtt.local:{}", port)).unwrap();
        assert_eq!(a.host, "mqtt.local");
        assert_eq!(a.port, port);
    }
}
