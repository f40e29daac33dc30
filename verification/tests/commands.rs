use cxn0102::commands::{
    CXN0102Notify, CommandError, CommandResult, DivisionTransmissionFormat,
    DivisionTransmissionUpdateData, Flip, GetTimeNotify, Notify, Pan, Request, SetVideoOutputPosition,
    ShutdownOption, ShutdownReboot, Tilt, UpdateFwImage,
};

#[test]
fn shutdown_reboot_serializes_with_size_op0() {
    let request = ShutdownReboot {
        option: ShutdownOption::StopsAllFunctions,
    };

    assert_eq!(request.to_bytes(), [0x0B, 0x01, 0x00]);
}

#[test]
fn set_video_output_position_serializes_fixed_values() {
    let request = SetVideoOutputPosition {
        pan: Pan(-30),
        tilt: Tilt(20),
        flip: Flip::UpDownAndRightLeft,
    };

    assert_eq!(
        request.to_bytes(),
        [0x26, 0x09, 0xE2, 0x14, 0x03, 0x64, 0, 0, 0, 0, 0]
    );
}

#[test]
fn special_update_serializes_without_size_op0() {
    let request = UpdateFwImage {
        data_size: 0x11223344,
        checksum: 0x55667788,
        data: vec![0xAA, 0xBB],
    };

    assert_eq!(
        request.to_bytes(),
        [0x82, 0x44, 0x33, 0x22, 0x11, 0x88, 0x77, 0x66, 0x55, 0xAA, 0xBB]
    );
}

#[test]
fn parses_get_time_notify() {
    let notify = GetTimeNotify::from_bytes(&[0xA1, 0x05, 0x00, 0x44, 0x33, 0x22, 0x11]).unwrap();

    assert_eq!(notify.result, CommandResult::Normal);
    assert_eq!(notify.seconds, 0x11223344);
}

#[test]
fn notify_with_wrong_command_is_refused() {
    let result = GetTimeNotify::from_bytes(&[0xA2, 0x05, 0x00, 0x44, 0x33, 0x22, 0x11]);
    assert_eq!(
        result.err(),
        Some(CommandError::WrongCommand {
            expected: 0xA1,
            actual: 0xA2
        })
    );
}

#[test]
fn notify_with_wrong_size_is_refused() {
    let result = GetTimeNotify::from_bytes(&[0xA1, 0x04, 0x00, 0x44, 0x33, 0x22]);
    assert!(matches!(
        result,
        Err(CommandError::WrongPayloadSize { .. })
    ));
}

#[test]
fn empty_notify_is_refused() {
    assert_eq!(
        CXN0102Notify::from_bytes(&[]).err(),
        Some(CommandError::WrongPayloadSize {
            expected: 2,
            actual: 0
        })
    );
}

#[test]
fn decoded_notify_keeps_its_first_byte_as_command_id() {
    let notify = CXN0102Notify::from_bytes(&[0xA1, 0x05, 0x00, 0x44, 0x33, 0x22, 0x11]).unwrap();
    assert!(matches!(notify, CXN0102Notify::GetTime(_)));
    assert_eq!(cxn0102::backend::notify_command_id(&notify), 0xA1);
}

#[test]
fn frame_starts_with_command_id() {
    let request = ShutdownReboot {
        option: ShutdownOption::Reboot,
    };
    let bytes = request.to_bytes();
    assert_eq!(bytes[0], request.command_id());
    assert_eq!(bytes[1] as usize, bytes.len() - 2);
}

#[test]
fn division_block_frame_has_header_and_data() {
    let request =
        DivisionTransmissionUpdateData::new(DivisionTransmissionFormat::Size64, 0x0102, vec![1, 2, 3])
            .unwrap();
    let bytes = request.to_bytes();
    assert_eq!(bytes.len(), 64 + 4);
    assert_eq!(&bytes[..7], &[0x9F, 0x00, 0x02, 0x01, 1, 2, 3]);
    assert!(bytes[7..].iter().all(|b| *b == 0));
}

#[test]
fn division_block_larger_than_format_is_refused() {
    let size = DivisionTransmissionFormat::Size1K.block_size();
    assert_eq!(size, 1024);
    let result = DivisionTransmissionUpdateData::new(
        DivisionTransmissionFormat::Size1K,
        0,
        vec![0; size + 1],
    );
    assert!(matches!(
        result,
        Err(CommandError::DivisionBlockTooLarge { .. })
    ));
}
