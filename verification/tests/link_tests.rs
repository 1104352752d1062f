use wifi_supervisor::config::Config;
use wifi_supervisor::link::{SharedLinkState, WifiState};
use wifi_supervisor::supervisor::{CycleOutcome, WifiConnection};

#[test]
fn wifi_state_new_has_no_address() {
    let s = WifiState::new([9; 6], String::from("net"));
    assert_eq!(s.mac_address, [9; 6]);
    assert_eq!(s.ssid, "net");
    assert_eq!(s.ip_addr(), None);
}

#[test]
fn shared_record_round_trip() {
    let s = WifiState::new([3; 6], String::from("net"));
    let shared = SharedLinkState::new(s);
    let got = shared.get_snapshot();
    assert_eq!(got.mac_address, [3; 6]);
    assert_eq!(got.ssid, "net");
    assert_eq!(got.ip_addr(), None);
}

#[test]
fn shared_record_reads_are_whole_snapshots() {
    let cfg = Config::default();
    let mut c = WifiConnection::new([0xAA, 0, 0, 0, 0, 1], &cfg).unwrap();
    let shared = SharedLinkState::new(c.state.snapshot());

    c.run_cycle(CycleOutcome::Connected([192, 0, 2, 5]));
    shared.set_snapshot(c.state.snapshot());
    let after = shared.get_snapshot();
    assert_eq!(after.ip_addr(), Some([192, 0, 2, 5]));
    assert_eq!(after.mac_address, [0xAA, 0, 0, 0, 0, 1]);
    assert_eq!(after.ssid, "internet");

    c.run_cycle(CycleOutcome::ConnectFailed);
    shared.set_snapshot(c.state.snapshot());
    let stale = shared.get_snapshot();
    assert_eq!(stale.ip_addr(), Some([192, 0, 2, 5]));
    assert_eq!(stale.mac_address, [0xAA, 0, 0, 0, 0, 1]);
}
