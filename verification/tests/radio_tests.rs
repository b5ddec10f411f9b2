use esp32s3_board::board::BspEsp32S3CoreBoard;
use esp32s3_board::radio::{
    AccessMode, ConnParams, NotifierStep, NOTIFY_CHAR_UUID, STATIC_CHAR_UUID, WRITE_CHAR_UUID,
};

#[test]
fn setup_registers_the_three_characteristics() {
    let (mut board, _plan) = BspEsp32S3CoreBoard::new();
    let server = board.ble_server_start().unwrap();
    assert_eq!(server.service_uuid(), 0xfafafafa_fafa_fafa_fafa_fafafafafafa);
    assert_eq!(server.char_meta(0), (STATIC_CHAR_UUID, AccessMode::Read));
    assert_eq!(server.char_meta(1), (NOTIFY_CHAR_UUID, AccessMode::ReadNotify));
    assert_eq!(server.char_meta(2), (WRITE_CHAR_UUID, AccessMode::ReadWrite));
    assert_eq!(
        server.char_value(0).as_slice(),
        b"Hello World, this is static, TOTHTOT"
    );
    assert_eq!(
        server.char_value(1).as_slice(),
        b"Hello World, this is notify, TOTHTOT"
    );
    assert_eq!(server.char_value(2).as_slice(), b"");
}

#[test]
fn admission_scenario_to_the_cap_and_back() {
    let (mut board, _plan) = BspEsp32S3CoreBoard::new();
    let mut server = board.ble_server_start().unwrap();
    assert_eq!(server.connected(), 0);
    assert!(server.is_advertising());

    let params = server.on_connect();
    assert_eq!(
        params,
        ConnParams { min_interval: 24, max_interval: 48, latency: 0, timeout: 60 }
    );
    assert_eq!(server.connected(), 1);
    assert!(server.is_advertising());

    server.on_connect();
    assert_eq!(server.connected(), 2);
    assert!(server.is_advertising());

    server.on_connect();
    assert_eq!(server.connected(), 3);
    assert!(!server.is_advertising());

    server.on_disconnect();
    assert_eq!(server.connected(), 2);
    assert!(server.is_advertising());
}

#[test]
fn notifier_formats_and_counts_ticks() {
    let (mut board, _plan) = BspEsp32S3CoreBoard::new();
    let mut server = board.ble_server_start().unwrap();

    match server.notifier_tick(2550, false) {
        NotifierStep::Notify(payload) => {
            assert_eq!(payload.as_slice(), b"running:0,temp:25.50");
        }
        NotifierStep::Stop => panic!("notifier stopped without an exit request"),
    }
    assert_eq!(server.char_value(1).as_slice(), b"running:0,temp:25.50");

    match server.notifier_tick(-35, false) {
        NotifierStep::Notify(payload) => {
            assert_eq!(payload.as_slice(), b"running:1,temp:-0.35");
        }
        NotifierStep::Stop => panic!("notifier stopped without an exit request"),
    }
    assert_eq!(server.char_value(1).as_slice(), b"running:1,temp:-0.35");
}

#[test]
fn notifier_stops_on_exit_without_a_further_notification() {
    let (mut board, _plan) = BspEsp32S3CoreBoard::new();
    let mut server = board.ble_server_start().unwrap();
    match server.notifier_tick(100, false) {
        NotifierStep::Notify(_) => {}
        NotifierStep::Stop => panic!("notifier stopped without an exit request"),
    }
    // the exit flag is observed on the very next tick; nothing more goes out
    match server.notifier_tick(9999, true) {
        NotifierStep::Stop => {}
        NotifierStep::Notify(_) => panic!("notified past the exit request"),
    }
    assert_eq!(server.char_value(1).as_slice(), b"running:0,temp:1.00");
}

#[test]
fn inbound_writes_land_in_the_write_characteristic() {
    let (mut board, _plan) = BspEsp32S3CoreBoard::new();
    let mut server = board.ble_server_start().unwrap();
    server.on_write(b"hello esp");
    assert_eq!(server.char_value(2).as_slice(), b"hello esp");
    server.on_write(b"");
    assert_eq!(server.char_value(2).as_slice(), b"");
}
