use esp32s3_board::Error;
use esp32s3_board::board::BspEsp32S3CoreBoard;
use esp32s3_board::bus::{BusArbiter, BusHandle, RadioModemOwnership};

#[test]
fn i2c_handle_is_exclusive_until_released() {
    let mut arbiter = BusArbiter::new();
    let handle = arbiter.acquire_i2c_handle().unwrap();
    assert_eq!(arbiter.acquire_i2c_handle().err(), Some(Error::BusBusy));
    assert_eq!(arbiter.acquire_i2c_handle().err(), Some(Error::BusBusy));
    arbiter.release(handle);
    assert!(arbiter.acquire_i2c_handle().is_ok());
}

#[test]
fn spi_bus_is_shared_across_chip_selects() {
    let mut arbiter = BusArbiter::new();
    let first = arbiter.acquire_spi_handle(21).unwrap();
    assert_eq!(first, BusHandle::Spi { chip_select: 21 });
    let second = arbiter.acquire_spi_handle(10).unwrap();
    assert_eq!(second, BusHandle::Spi { chip_select: 10 });
    assert_eq!(arbiter.acquire_spi_handle(21).err(), Some(Error::BusBusy));
    arbiter.release(first);
    assert!(arbiter.acquire_spi_handle(21).is_ok());
    assert_eq!(arbiter.acquire_spi_handle(10).err(), Some(Error::BusBusy));
    arbiter.release(second);
    assert!(arbiter.acquire_spi_handle(10).is_ok());
}

#[test]
fn modem_is_handed_out_once() {
    let mut arbiter = BusArbiter::new();
    let modem = arbiter.take_modem();
    assert!(modem.is_some());
    assert!(arbiter.take_modem().is_none());
    assert!(arbiter.take_modem().is_none());
}

#[test]
fn modem_ownership_teardown_recovers_the_modem() {
    let mut arbiter = BusArbiter::new();
    let modem = arbiter.take_modem().unwrap();
    let ownership = RadioModemOwnership::claim_wireless(modem);
    let recovered = ownership.teardown();
    assert!(recovered.is_some());
    let again = RadioModemOwnership::claim_short_range(recovered.unwrap());
    assert!(again.teardown().is_some());
    assert!(RadioModemOwnership::Unowned.teardown().is_none());
}

#[test]
fn board_assembly_partitions_the_buses() {
    let (mut board, plan) = BspEsp32S3CoreBoard::new();
    assert_eq!(plan.spi_hz, 30_000_000);
    assert_eq!(plan.panel_width, 135);
    assert_eq!(plan.panel_height, 240);
    assert!(plan.invert_colors);
    assert!(plan.clear_to_white);
    assert_eq!(plan.image_x, 26);
    assert_eq!(plan.image_y, 8);
    assert_eq!(plan.image_width, 86);
    // the two-wire bus and the display's chip-select are spoken for
    assert_eq!(board.arbiter.acquire_i2c_handle().err(), Some(Error::BusBusy));
    assert_eq!(board.arbiter.acquire_spi_handle(21).err(), Some(Error::BusBusy));
    // another chip-select on the serial bus is still free
    assert!(board.arbiter.acquire_spi_handle(7).is_ok());
    assert_eq!(board.wifi_ssid(), "esp32_2.4G");
    assert_eq!(board.wifi_password(), "12345678..");
    assert!(!board.get_fs_init());
    board.set_fs_init(true);
    assert!(board.get_fs_init());
}

#[test]
fn display_initializes_exactly_once() {
    let (mut board, _plan) = BspEsp32S3CoreBoard::new();
    assert_eq!(board.display.init().err(), Some(Error::ConfigRejected));
}

#[test]
fn the_two_radio_stacks_exclude_each_other() {
    let (mut board, _plan) = BspEsp32S3CoreBoard::new();
    let server = board.ble_server_start();
    assert!(server.is_ok());
    // the modem is gone: the wireless stack cannot start any more
    assert_eq!(board.start_wireless().err(), Some(Error::ConfigRejected));
    assert!(board.ble_server_start().err() == Some(Error::ConfigRejected));

    let (mut board2, _plan2) = BspEsp32S3CoreBoard::new();
    assert!(board2.start_wireless().is_ok());
    assert!(board2.ble_server_start().err() == Some(Error::ConfigRejected));
}

#[test]
fn error_descriptions() {
    assert_eq!(Error::BusBusy.describe(), "bus busy");
    assert_eq!(Error::IoFailure.describe(), "io failure");
    assert_eq!(Error::ConfigRejected.describe(), "config rejected");
    assert_eq!(Error::MountFailure.describe(), "mount failure");
    assert_eq!(Error::DriverInitFailure.describe(), "driver init failure");
}
