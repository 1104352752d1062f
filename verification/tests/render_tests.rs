use wifi_supervisor::link::WifiState;
use wifi_supervisor::render::{format_ipv4, format_mac, greeting, state_json, u64_to_dec};
use wifi_supervisor::supervisor::{CycleOutcome, WifiConnection};
use wifi_supervisor::config::Config;

#[test]
fn decimal_of_zero() {
    assert_eq!(u64_to_dec(0), b"0".to_vec());
}

#[test]
fn decimal_of_single_digit() {
    assert_eq!(u64_to_dec(7), b"7".to_vec());
}

#[test]
fn decimal_of_round_number() {
    assert_eq!(u64_to_dec(1000), b"1000".to_vec());
}

#[test]
fn decimal_of_largest_value() {
    assert_eq!(u64_to_dec(u64::MAX), b"18446744073709551615".to_vec());
}

#[test]
fn ipv4_dotted_decimal() {
    assert_eq!(format_ipv4(&[192, 0, 2, 5]), b"192.0.2.5".to_vec());
    assert_eq!(format_ipv4(&[0, 0, 0, 0]), b"0.0.0.0".to_vec());
    assert_eq!(format_ipv4(&[255, 255, 255, 255]), b"255.255.255.255".to_vec());
}

#[test]
fn mac_colon_hex() {
    assert_eq!(
        format_mac(&[0xAA, 0xBB, 0x0C, 0x00, 0xFF, 0x09]),
        b"AA:BB:0C:00:FF:09".to_vec()
    );
    assert_eq!(
        format_mac(&[0, 0, 0, 0, 0, 0]),
        b"00:00:00:00:00:00".to_vec()
    );
}

#[test]
fn greeting_text() {
    assert_eq!(greeting(), "Hello!");
}

#[test]
fn state_json_with_address() {
    let state = WifiState {
        mac_address: [0xAA, 0xBB, 0x0C, 0x00, 0xFF, 0x09],
        ssid: String::from("internet"),
        ip_addr: Some([192, 0, 2, 5]),
    };
    let body = state_json(&state, 151320, 4);
    assert_eq!(
        String::from_utf8(body).unwrap(),
        "{\"message\":\"Hello from ESP32!\",\"free_heap\":151320,\
         \"ip_address\":\"192.0.2.5\",\"mac_address\":\"AA:BB:0C:00:FF:09\",\"counter\":4}"
    );
}

#[test]
fn state_before_any_connection_reports_null_ip_and_fixed_mac() {
    let cfg = Config {
        port: 80,
        wifi_ssid: String::from("internet"),
        wifi_pass: String::from("password"),
    };
    let c = WifiConnection::new([0xAA, 0xBB, 0x0C, 0x00, 0xFF, 0x09], &cfg).unwrap();
    let snap = c.state.snapshot();
    assert_eq!(snap.ip_addr(), None);
    let body = state_json(&snap, 1000, 0);
    assert_eq!(
        String::from_utf8(body).unwrap(),
        "{\"message\":\"Hello from ESP32!\",\"free_heap\":1000,\
         \"ip_address\":null,\"mac_address\":\"AA:BB:0C:00:FF:09\",\"counter\":0}"
    );
}

#[test]
fn snapshot_is_a_whole_consistent_copy() {
    let cfg = Config::default();
    let mut c = WifiConnection::new([5; 6], &cfg).unwrap();
    c.run_cycle(CycleOutcome::Connected([10, 1, 2, 3]));
    let snap = c.state.snapshot();
    assert_eq!(snap.mac_address, c.state.mac_address);
    assert_eq!(snap.ssid, c.state.ssid);
    assert_eq!(snap.ip_addr(), Some([10, 1, 2, 3]));
}
