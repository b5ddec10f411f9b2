use esp32s3_board::Error;
use esp32s3_board::board::BspEsp32S3CoreBoard;
use esp32s3_board::bus::{BusArbiter, RadioModemOwnership};
use esp32s3_board::connectivity::{AuthMethod, ConnectionConfig, ConnectivityManager};

#[test]
fn connect_then_link_up_reports_connected() {
    let (mut board, _plan) = BspEsp32S3CoreBoard::new();
    board.start_wireless().unwrap();
    let plan = board.wifi_connect().unwrap();
    assert!(!plan.disconnect_first);

    let manager = board.connectivity.as_mut().unwrap();
    assert!(!manager.is_connected());
    manager.driver_started();
    manager.config_applied();
    assert!(!manager.is_connected());
    manager.link_up();
    assert!(manager.is_connected());

    let config = manager.current_config().unwrap();
    assert_eq!(config.ssid_str(), "esp32_2.4G");
    assert_eq!(config.password_str(), "12345678..");
    assert_eq!(config.auth_method(), AuthMethod::Wpa2Personal);
}

#[test]
fn reconnect_disconnects_first_and_keeps_one_configuration() {
    let (mut board, _plan) = BspEsp32S3CoreBoard::new();
    board.start_wireless().unwrap();
    board.wifi_connect().unwrap();
    let manager = board.connectivity.as_mut().unwrap();
    manager.driver_started();
    manager.config_applied();
    manager.link_up();

    // a second connect while the link is up asks for an explicit disconnect
    let plan = manager.connect("another_net", "another_pw").unwrap();
    assert!(plan.disconnect_first);
    assert!(!manager.is_connected());
    // exactly the new configuration is held, never a layered second one
    let config = manager.current_config().unwrap();
    assert_eq!(config.ssid_str(), "another_net");
    assert_eq!(config.password_str(), "another_pw");

    // ... and it is the one that comes up after the reconnect sequence
    manager.disconnect_done();
    manager.driver_started();
    manager.config_applied();
    manager.link_up();
    assert!(manager.is_connected());
    let config = manager.current_config().unwrap();
    assert_eq!(config.ssid_str(), "another_net");
    assert_eq!(config.password_str(), "another_pw");
}

#[test]
fn oversized_credentials_are_rejected_untruncated() {
    let (mut board, _plan) = BspEsp32S3CoreBoard::new();
    board.start_wireless().unwrap();
    let manager = board.connectivity.as_mut().unwrap();
    manager.connect("net", "pw").unwrap();

    let long_ssid = "s".repeat(33);
    assert_eq!(manager.connect(&long_ssid, "pw").err(), Some(Error::ConfigRejected));
    let long_password = "p".repeat(65);
    assert_eq!(manager.connect("net", &long_password).err(), Some(Error::ConfigRejected));
    // the refused request changed nothing
    let config = manager.current_config().unwrap();
    assert_eq!(config.ssid_str(), "net");
    assert_eq!(config.password_str(), "pw");

    // the bounds themselves are admitted
    let edge_ssid = "s".repeat(32);
    let edge_password = "p".repeat(64);
    assert!(manager.connect(&edge_ssid, &edge_password).is_ok());
    let config = manager.current_config().unwrap();
    assert_eq!(config.ssid_str(), edge_ssid.as_str());
    assert_eq!(config.password_str(), edge_password.as_str());
}

#[test]
fn config_builder_validates_lengths() {
    let config = ConnectionConfig::build("abc", "secret").unwrap();
    assert_eq!(config.ssid_str(), "abc");
    assert_eq!(config.password_str(), "secret");
    assert_eq!(ConnectionConfig::build(&"x".repeat(33), "pw").err(), Some(Error::ConfigRejected));
    assert_eq!(ConnectionConfig::build("net", &"x".repeat(65)).err(), Some(Error::ConfigRejected));
}

#[test]
fn wifi_connect_without_the_stack_is_rejected() {
    let (mut board, _plan) = BspEsp32S3CoreBoard::new();
    assert_eq!(board.wifi_connect().err(), Some(Error::ConfigRejected));
}

#[test]
fn the_manager_requires_wireless_ownership() {
    let mut arbiter = BusArbiter::new();
    let modem = arbiter.take_modem().unwrap();
    let ownership = RadioModemOwnership::claim_short_range(modem);
    match ConnectivityManager::start(ownership) {
        Ok(_) => panic!("short-range ownership must not back the wireless stack"),
        Err((given_back, error)) => {
            assert_eq!(error, Error::ConfigRejected);
            assert!(given_back.teardown().is_some());
        }
    }
}
