use cxn0102::commands::{CXN0102Notify, CommandError, CommandResult};
use cxn0102::cxn0102::{is_seven_bit_address, NotifyReadError, CXN0102, NOTIFY_READ_SIZE};

#[test]
fn default_device_location() {
    let device = CXN0102::default();
    assert_eq!(device.i2c_address, 0x77);
    assert_eq!(device.i2c_path, "/dev/i2c-7");
    assert_eq!(device.gpio_chip_path, "/dev/gpiochip0");
    assert_eq!(device.gpio_line_offset, 144);
}

#[test]
fn shutdown_request_stops_all_functions() {
    assert_eq!(CXN0102::default().shutdown_request(), vec![0x0B, 0x01, 0x00]);
}

#[test]
fn notify_read_takes_the_frame_and_ignores_the_rest() {
    let mut data = [0xff; NOTIFY_READ_SIZE];
    data[..7].copy_from_slice(&[0xA1, 0x05, 0x00, 0x44, 0x33, 0x22, 0x11]);
    match CXN0102::notify_from_read(&data) {
        Ok(CXN0102Notify::GetTime(notify)) => {
            assert_eq!(notify.result, CommandResult::Normal);
            assert_eq!(notify.seconds, 0x11223344);
        }
        other => panic!("unexpected {other:?}"),
    }
}

#[test]
fn notify_read_errors() {
    assert_eq!(
        CXN0102::notify_from_read(&[0xA1]).err(),
        Some(NotifyReadError::MissingOp0)
    );
    let mut data = [0u8; NOTIFY_READ_SIZE];
    data[0] = 0xA1;
    data[1] = 40;
    assert_eq!(
        CXN0102::notify_from_read(&data).err(),
        Some(NotifyReadError::PayloadTooLarge {
            payload_size: 40,
            read_size: 32
        })
    );
    data[1] = 1;
    assert!(matches!(
        CXN0102::notify_from_read(&data),
        Err(NotifyReadError::Parse(CommandError::WrongPayloadSize { .. }))
    ));
}

#[test]
fn only_seven_bit_addresses_are_accepted() {
    assert!(is_seven_bit_address(0x77));
    assert!(is_seven_bit_address(0x7f));
    assert!(!is_seven_bit_address(0x80));
}
