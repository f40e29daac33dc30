use cxn0102::options::{
    DivisionTransmissionFormat, Flip, MuteOutput, SaveAdjustment, SaveOpticalAlignmentBiphase,
    SavePictureQuality, SaveVideoPosition, ShutdownOption, StoppedOutput, TestPattern,
};
use cxn0102::results::{
    AdjustmentControlResult, AdjustmentStepResult, BootResult, CommandEmergencyResult,
    CommandResult, EmergencyResult, TemperatureEmergencyRecoveryResult, UpdateResult,
};

fn text(chars: Vec<char>) -> String {
    chars.into_iter().collect()
}

#[test]
fn result_debug_text_is_the_debug_output() {
    for byte in 0..=255u8 {
        let r = BootResult::from_byte(byte);
        assert_eq!(text(r.debug_text()), format!("{r:?}"));
        let r = CommandResult::from_byte(byte);
        assert_eq!(text(r.debug_text()), format!("{r:?}"));
        let r = AdjustmentControlResult::from_byte(byte);
        assert_eq!(text(r.debug_text()), format!("{r:?}"));
        let r = AdjustmentStepResult::from_byte(byte);
        assert_eq!(text(r.debug_text()), format!("{r:?}"));
        let r = UpdateResult::from_byte(byte);
        assert_eq!(text(r.debug_text()), format!("{r:?}"));
        let r = EmergencyResult::from_byte(byte);
        assert_eq!(text(r.debug_text()), format!("{r:?}"));
        let r = TemperatureEmergencyRecoveryResult::from_byte(byte);
        assert_eq!(text(r.debug_text()), format!("{r:?}"));
        let r = CommandEmergencyResult::from_byte(byte);
        assert_eq!(text(r.debug_text()), format!("{r:?}"));
    }
}

#[test]
fn result_from_u8_matches_from_byte() {
    for byte in 0..=255u8 {
        assert_eq!(CommandResult::from(byte), CommandResult::from_byte(byte));
        assert_eq!(UpdateResult::from(byte), UpdateResult::from_byte(byte));
    }
}

#[test]
fn option_bytes_round_trip() {
    for byte in 0..=255u8 {
        if let Ok(v) = StoppedOutput::try_from(byte) {
            assert_eq!(u8::from(v), byte);
        }
        if let Ok(v) = MuteOutput::try_from(byte) {
            assert_eq!(u8::from(v), byte);
        }
        if let Ok(v) = SaveVideoPosition::try_from(byte) {
            assert_eq!(u8::from(v), byte);
        }
        if let Ok(v) = SaveOpticalAlignmentBiphase::try_from(byte) {
            assert_eq!(u8::from(v), byte);
        }
        if let Ok(v) = SavePictureQuality::try_from(byte) {
            assert_eq!(u8::from(v), byte);
        }
        if let Ok(v) = ShutdownOption::try_from(byte) {
            assert_eq!(u8::from(v), byte);
        }
        if let Ok(v) = Flip::try_from(byte) {
            assert_eq!(u8::from(v), byte);
        }
        if let Ok(v) = SaveAdjustment::try_from(byte) {
            assert_eq!(u8::from(v), byte);
        }
        if let Ok(v) = DivisionTransmissionFormat::try_from(byte) {
            assert_eq!(u8::from(v), byte);
        }
        if let Ok(v) = TestPattern::try_from(byte) {
            assert_eq!(u8::from(v), byte);
        }
    }
    assert_eq!(u8::from(ShutdownOption::Reboot), 0x01);
    assert!(ShutdownOption::try_from(0x02).is_err());
}

#[test]
fn flip_has_readable_text() {
    assert_eq!(text(Flip::UpDownAndRightLeft.debug_text()), format!("{:?}", Flip::UpDownAndRightLeft));
}
