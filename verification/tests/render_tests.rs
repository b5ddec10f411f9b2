use esp32s3_board::Error;
use esp32s3_board::expander::{apply_line, GpioExpanderPinSource};
use esp32s3_board::bus::BusArbiter;
use esp32s3_board::foreground::{rainbow_color, ForegroundLoop};
use esp32s3_board::render::{bytes_eq, centi_dec, u64_dec};
use esp32s3_board::status::{file_list_text, index_html, temperature, templated, DirEntry};
use esp32s3_board::telemetry::Telemetry;

#[test]
fn decimal_rendering() {
    assert_eq!(u64_dec(0).as_slice(), b"0");
    assert_eq!(u64_dec(7).as_slice(), b"7");
    assert_eq!(u64_dec(10).as_slice(), b"10");
    assert_eq!(u64_dec(1234).as_slice(), b"1234");
    assert_eq!(u64_dec(u64::MAX).as_slice(), b"18446744073709551615");
}

#[test]
fn temperature_rendering() {
    assert_eq!(centi_dec(0).as_slice(), b"0.00");
    assert_eq!(centi_dec(2550).as_slice(), b"25.50");
    assert_eq!(centi_dec(-35).as_slice(), b"-0.35");
    assert_eq!(centi_dec(9).as_slice(), b"0.09");
    assert_eq!(centi_dec(i32::MAX).as_slice(), b"21474836.47");
    assert_eq!(centi_dec(i32::MIN).as_slice(), b"-21474836.48");
}

#[test]
fn byte_comparison() {
    assert!(bytes_eq(b"", b""));
    assert!(bytes_eq(b"abc", b"abc"));
    assert!(!bytes_eq(b"abc", b"abd"));
    assert!(!bytes_eq(b"abc", b"ab"));
}

#[test]
fn status_pages_carry_the_fixed_markup() {
    let expected_index = format!(
        "\n    <!DOCTYPE html>\n    <html>\n        <head>\n            <meta charset=\"utf-8\">\n            <title>esp-rs web server</title>\n        </head>\n        <body>\n            {}\n        </body>\n    </html>\n    ",
        "Hello from ESP32-S3!"
    );
    assert_eq!(index_html().as_slice(), expected_index.as_bytes());

    let expected_temp = format!(
        "\n    <!DOCTYPE html>\n    <html>\n        <head>\n            <meta charset=\"utf-8\">\n            <title>esp-rs web server</title>\n        </head>\n        <body>\n            {}\n        </body>\n    </html>\n    ",
        "mcu temperature: 25.50"
    );
    assert_eq!(temperature(2550).as_slice(), expected_temp.as_bytes());

    let wrapped = templated("abc");
    let expected = format!(
        "\n    <!DOCTYPE html>\n    <html>\n        <head>\n            <meta charset=\"utf-8\">\n            <title>esp-rs web server</title>\n        </head>\n        <body>\n            {}\n        </body>\n    </html>\n    ",
        "abc"
    );
    assert_eq!(wrapped.as_slice(), expected.as_bytes());
}

#[test]
fn file_listing_annotates_and_joins() {
    let entries: Vec<DirEntry> = vec![
        DirEntry { name: b"config".to_vec(), is_dir: true },
        DirEntry { name: b"hello.txt".to_vec(), is_dir: false },
    ];
    assert_eq!(file_list_text(&entries).as_slice(), b"config (dir)\nhello.txt (file)");
    let none: Vec<DirEntry> = Vec::new();
    assert_eq!(file_list_text(&none).as_slice(), b"");
    let one = vec![DirEntry { name: b"x".to_vec(), is_dir: false }];
    assert_eq!(file_list_text(&one).as_slice(), b"x (file)");
}

#[test]
fn rainbow_pixel_matches_the_conversion() {
    // hue 0, saturation 255, value 8 converts to pure dim red
    assert_eq!(rainbow_color(0), (8, 0, 0));
    // hue 10: still in the first sextant, green has risen to 8*30/255
    assert_eq!(rainbow_color(10), (8, 1, 0));
}

#[test]
fn foreground_tick_updates_telemetry_hue_and_cadence() {
    let mut fg = ForegroundLoop::new();
    let mut telemetry = Telemetry::new();

    let first = fg.tick(&mut telemetry, 2345);
    assert_eq!(telemetry.read_temperature(), 2345);
    assert_eq!(first.led, rainbow_color(10));
    assert!(first.log_status);

    let second = fg.tick(&mut telemetry, -100);
    assert_eq!(telemetry.read_temperature(), -100);
    assert_eq!(second.led, rainbow_color(20));
    assert!(!second.log_status);
}

#[test]
fn telemetry_round_trip_and_exit_flag() {
    let mut telemetry = Telemetry::new();
    assert_eq!(telemetry.read_temperature(), 0);
    assert!(!telemetry.exit_requested());
    telemetry.set_temperature(-4250);
    assert_eq!(telemetry.read_temperature(), -4250);
    telemetry.set_exit(true);
    assert!(telemetry.exit_requested());
    assert_eq!(telemetry.snapshot(), (-4250, true));
}

#[test]
fn register_images_change_exactly_one_line() {
    assert_eq!(apply_line(0, 13, true), 1u16 << 13);
    assert_eq!(apply_line(1u16 << 13, 12, true), (1u16 << 13) | (1u16 << 12));
    assert_eq!(apply_line((1u16 << 13) | (1u16 << 12), 13, false), 1u16 << 12);
    assert_eq!(apply_line(0xffff, 0, false), 0xfffe);
}

#[test]
fn expander_configures_once_and_guards_its_lines() {
    let mut arbiter = BusArbiter::new();
    let i2c = arbiter.acquire_i2c_handle().unwrap();
    let mut expander = GpioExpanderPinSource::new(i2c);

    // pins are refused before configuration
    let mut early = expander.output_pin(13);
    assert_eq!(early.err(), Some(Error::ConfigRejected));

    assert_eq!(expander.configure(0b1111_0000_0000_0000).unwrap(), 0b1111_0000_0000_0000);
    assert_eq!(expander.configure(0).err(), Some(Error::ConfigRejected));

    // an input line yields no output pin
    early = expander.output_pin(3);
    assert_eq!(early.err(), Some(Error::ConfigRejected));

    let dc = expander.output_pin(13).unwrap();
    assert_eq!(expander.output_pin(13).err(), Some(Error::BusBusy));
    let rst = expander.output_pin(12).unwrap();

    assert!(!expander.get_level(&dc));
    let image = expander.set_level(&dc, true);
    assert_eq!(image, 1u16 << 13);
    assert!(expander.get_level(&dc));
    assert!(!expander.get_level(&rst));

    let image = expander.set_level(&rst, true);
    assert_eq!(image, (1u16 << 13) | (1u16 << 12));
    let image = expander.set_level(&dc, false);
    assert_eq!(image, 1u16 << 12);
    assert_eq!(expander.output_image(), 1u16 << 12);
}
