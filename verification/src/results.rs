use vstd::prelude::*;

use crate::text::{dec_int, push_dec_i128, push_str};
use vstd::std_specs::convert::FromSpec;

verus! {

/// Outcome reported by the boot-completed notify.
#[derive(Debug, Clone, Copy, PartialEq, Eq)]
pub enum BootResult {
    Normal,
    InternalMalfunction,
    InternalFailure(u8),
    ParameterTransactionFailure,
    Unknown(u8),
}

impl BootResult {
    /// How a raw result byte is classified.
    pub open spec fn spec_from_byte(value: u8) -> BootResult {
        if value == 0x00 {
            BootResult::Normal
        } else if value == 0x80 {
            BootResult::InternalMalfunction
        } else if 0x81 <= value <= 0x84 {
            BootResult::InternalFailure(value & 0x0F)
        } else if value == 0xFE {
            BootResult::ParameterTransactionFailure
        } else {
            BootResult::Unknown(value)
        }
    }
}

impl BootResult {
    /// Classifies a raw result byte.
    pub fn from_byte(value: u8) -> (result: BootResult)
        ensures
            result == BootResult::spec_from_byte(value),
    {
        match value {
            0x00 => BootResult::Normal,
            0x80 => BootResult::InternalMalfunction,
            0x81..=0x84 => BootResult::InternalFailure(value & 0x0F),
            0xFE => BootResult::ParameterTransactionFailure,
            _ => BootResult::Unknown(value),
        }
    }
}

impl From<u8> for BootResult {
    fn from(value: u8) -> (result: BootResult) {
        BootResult::from_byte(value)
    }
}

impl vstd::std_specs::convert::FromSpecImpl<u8> for BootResult {
    open spec fn obeys_from_spec() -> bool {
        true
    }

    open spec fn from_spec(v: u8) -> BootResult {
        let value = v;
        if value == 0x00 {
            BootResult::Normal
        } else if value == 0x80 {
            BootResult::InternalMalfunction
        } else if 0x81 <= value <= 0x84 {
            BootResult::InternalFailure(value & 0x0F)
        } else if value == 0xFE {
            BootResult::ParameterTransactionFailure
        } else {
            BootResult::Unknown(value)
        }
    }
}

impl BootResult {
    /// The text that `{:?}` shows for the value.
    pub open spec fn spec_debug_text(self) -> Seq<char> {
        match self {
            BootResult::Normal => "Normal"@,
            BootResult::InternalMalfunction => "InternalMalfunction"@,
            BootResult::InternalFailure(x) => "InternalFailure("@ + dec_int(x as int) + ")"@,
            BootResult::ParameterTransactionFailure => "ParameterTransactionFailure"@,
            BootResult::Unknown(x) => "Unknown("@ + dec_int(x as int) + ")"@,
        }
    }

    pub fn debug_text(self) -> (text: Vec<char>)
        ensures
            text@ == self.spec_debug_text(),
    {
        let mut text = Vec::new();
        match self {
            BootResult::Normal => push_str(&mut text, "Normal"),
            BootResult::InternalMalfunction => push_str(&mut text, "InternalMalfunction"),
            BootResult::InternalFailure(x) => {
                push_str(&mut text, "InternalFailure(");
                push_dec_i128(&mut text, x as i128);
                push_str(&mut text, ")");
            },
            BootResult::ParameterTransactionFailure => push_str(&mut text, "ParameterTransactionFailure"),
            BootResult::Unknown(x) => {
                push_str(&mut text, "Unknown(");
                push_dec_i128(&mut text, x as i128);
                push_str(&mut text, ")");
            },
        }
        text
    }
}

/// Generic result code of a command notify.
#[derive(Debug, Clone, Copy, PartialEq, Eq)]
pub enum CommandResult {
    Normal,
    Abnormal(u8),
    Other(u8),
}

impl CommandResult {
    /// How a raw result byte is classified.
    pub open spec fn spec_from_byte(value: u8) -> CommandResult {
        if value == 0x00 {
            CommandResult::Normal
        } else if 0x80 <= value <= 0x8F {
            CommandResult::Abnormal(value)
        } else {
            CommandResult::Other(value)
        }
    }
}

impl CommandResult {
    /// Classifies a raw result byte.
    pub fn from_byte(value: u8) -> (result: CommandResult)
        ensures
            result == CommandResult::spec_from_byte(value),
    {
        match value {
            0x00 => CommandResult::Normal,
            0x80..=0x8F => CommandResult::Abnormal(value),
            _ => CommandResult::Other(value),
        }
    }
}

impl From<u8> for CommandResult {
    fn from(value: u8) -> (result: CommandResult) {
        CommandResult::from_byte(value)
    }
}

impl vstd::std_specs::convert::FromSpecImpl<u8> for CommandResult {
    open spec fn obeys_from_spec() -> bool {
        true
    }

    open spec fn from_spec(v: u8) -> CommandResult {
        let value = v;
        if value == 0x00 {
            CommandResult::Normal
        } else if 0x80 <= value <= 0x8F {
            CommandResult::Abnormal(value)
        } else {
            CommandResult::Other(value)
        }
    }
}

impl CommandResult {
    /// The text that `{:?}` shows for the value.
    pub open spec fn spec_debug_text(self) -> Seq<char> {
        match self {
            CommandResult::Normal => "Normal"@,
            CommandResult::Abnormal(x) => "Abnormal("@ + dec_int(x as int) + ")"@,
            CommandResult::Other(x) => "Other("@ + dec_int(x as int) + ")"@,
        }
    }

    pub fn debug_text(self) -> (text: Vec<char>)
        ensures
            text@ == self.spec_debug_text(),
    {
        let mut text = Vec::new();
        match self {
            CommandResult::Normal => push_str(&mut text, "Normal"),
            CommandResult::Abnormal(x) => {
                push_str(&mut text, "Abnormal(");
                push_dec_i128(&mut text, x as i128);
                push_str(&mut text, ")");
            },
            CommandResult::Other(x) => {
                push_str(&mut text, "Other(");
                push_dec_i128(&mut text, x as i128);
                push_str(&mut text, ")");
            },
        }
        text
    }
}

/// Result code of an easy-adjustment control notify.
#[derive(Debug, Clone, Copy, PartialEq, Eq)]
pub enum AdjustmentControlResult {
    Executed,
    Completed,
    Abnormal(u8),
    Other(u8),
}

impl AdjustmentControlResult {
    /// How a raw result byte is classified.
    pub open spec fn spec_from_byte(value: u8) -> AdjustmentControlResult {
        if value == 0x00 {
            AdjustmentControlResult::Executed
        } else if value == 0x01 {
            AdjustmentControlResult::Completed
        } else if 0x80 <= value <= 0x8F {
            AdjustmentControlResult::Abnormal(value)
        } else {
            AdjustmentControlResult::Other(value)
        }
    }
}

impl AdjustmentControlResult {
    /// Classifies a raw result byte.
    pub fn from_byte(value: u8) -> (result: AdjustmentControlResult)
        ensures
            result == AdjustmentControlResult::spec_from_byte(value),
    {
        match value {
            0x00 => AdjustmentControlResult::Executed,
            0x01 => AdjustmentControlResult::Completed,
            0x80..=0x8F => AdjustmentControlResult::Abnormal(value),
            _ => AdjustmentControlResult::Other(value),
        }
    }
}

impl From<u8> for AdjustmentControlResult {
    fn from(value: u8) -> (result: AdjustmentControlResult) {
        AdjustmentControlResult::from_byte(value)
    }
}

impl vstd::std_specs::convert::FromSpecImpl<u8> for AdjustmentControlResult {
    open spec fn obeys_from_spec() -> bool {
        true
    }

    open spec fn from_spec(v: u8) -> AdjustmentControlResult {
        let value = v;
        if value == 0x00 {
            AdjustmentControlResult::Executed
        } else if value == 0x01 {
            AdjustmentControlResult::Completed
        } else if 0x80 <= value <= 0x8F {
            AdjustmentControlResult::Abnormal(value)
        } else {
            AdjustmentControlResult::Other(value)
        }
    }
}

impl AdjustmentControlResult {
    /// The text that `{:?}` shows for the value.
    pub open spec fn spec_debug_text(self) -> Seq<char> {
        match self {
            AdjustmentControlResult::Executed => "Executed"@,
            AdjustmentControlResult::Completed => "Completed"@,
            AdjustmentControlResult::Abnormal(x) => "Abnormal("@ + dec_int(x as int) + ")"@,
            AdjustmentControlResult::Other(x) => "Other("@ + dec_int(x as int) + ")"@,
        }
    }

    pub fn debug_text(self) -> (text: Vec<char>)
        ensures
            text@ == self.spec_debug_text(),
    {
        let mut text = Vec::new();
        match self {
            AdjustmentControlResult::Executed => push_str(&mut text, "Executed"),
            AdjustmentControlResult::Completed => push_str(&mut text, "Completed"),
            AdjustmentControlResult::Abnormal(x) => {
                push_str(&mut text, "Abnormal(");
                push_dec_i128(&mut text, x as i128);
                push_str(&mut text, ")");
            },
            AdjustmentControlResult::Other(x) => {
                push_str(&mut text, "Other(");
                push_dec_i128(&mut text, x as i128);
                push_str(&mut text, ")");
            },
        }
        text
    }
}

/// Result code of an easy-adjustment plus/minus notify.
#[derive(Debug, Clone, Copy, PartialEq, Eq)]
pub enum AdjustmentStepResult {
    Normal,
    Abnormal(u8),
    LimitExceeded,
    Other(u8),
}

impl AdjustmentStepResult {
    /// How a raw result byte is classified.
    pub open spec fn spec_from_byte(value: u8) -> AdjustmentStepResult {
        if value == 0x00 {
            AdjustmentStepResult::Normal
        } else if 0x80 <= value <= 0x8F {
            AdjustmentStepResult::Abnormal(value)
        } else if value == 0xFE {
            AdjustmentStepResult::LimitExceeded
        } else {
            AdjustmentStepResult::Other(value)
        }
    }
}

impl AdjustmentStepResult {
    /// Classifies a raw result byte.
    pub fn from_byte(value: u8) -> (result: AdjustmentStepResult)
        ensures
            result == AdjustmentStepResult::spec_from_byte(value),
    {
        match value {
            0x00 => AdjustmentStepResult::Normal,
            0x80..=0x8F => AdjustmentStepResult::Abnormal(value),
            0xFE => AdjustmentStepResult::LimitExceeded,
            _ => AdjustmentStepResult::Other(value),
        }
    }
}

impl From<u8> for AdjustmentStepResult {
    fn from(value: u8) -> (result: AdjustmentStepResult) {
        AdjustmentStepResult::from_byte(value)
    }
}

impl vstd::std_specs::convert::FromSpecImpl<u8> for AdjustmentStepResult {
    open spec fn obeys_from_spec() -> bool {
        true
    }

    open spec fn from_spec(v: u8) -> AdjustmentStepResult {
        let value = v;
        if value == 0x00 {
            AdjustmentStepResult::Normal
        } else if 0x80 <= value <= 0x8F {
            AdjustmentStepResult::Abnormal(value)
        } else if value == 0xFE {
            AdjustmentStepResult::LimitExceeded
        } else {
            AdjustmentStepResult::Other(value)
        }
    }
}

impl AdjustmentStepResult {
    /// The text that `{:?}` shows for the value.
    pub open spec fn spec_debug_text(self) -> Seq<char> {
        match self {
            AdjustmentStepResult::Normal => "Normal"@,
            AdjustmentStepResult::Abnormal(x) => "Abnormal("@ + dec_int(x as int) + ")"@,
            AdjustmentStepResult::LimitExceeded => "LimitExceeded"@,
            AdjustmentStepResult::Other(x) => "Other("@ + dec_int(x as int) + ")"@,
        }
    }

    pub fn debug_text(self) -> (text: Vec<char>)
        ensures
            text@ == self.spec_debug_text(),
    {
        let mut text = Vec::new();
        match self {
            AdjustmentStepResult::Normal => push_str(&mut text, "Normal"),
            AdjustmentStepResult::Abnormal(x) => {
                push_str(&mut text, "Abnormal(");
                push_dec_i128(&mut text, x as i128);
                push_str(&mut text, ")");
            },
            AdjustmentStepResult::LimitExceeded => push_str(&mut text, "LimitExceeded"),
            AdjustmentStepResult::Other(x) => {
                push_str(&mut text, "Other(");
                push_dec_i128(&mut text, x as i128);
                push_str(&mut text, ")");
            },
        }
        text
    }
}

/// Result code of a firmware or picture update notify.
#[derive(Debug, Clone, Copy, PartialEq, Eq)]
pub enum UpdateResult {
    Normal,
    CmdFormatError,
    TimeoutError,
    ChecksumError,
    NumberError,
    OtherError,
    Other(u8),
}

impl UpdateResult {
    /// How a raw result byte is classified.
    pub open spec fn spec_from_byte(value: u8) -> UpdateResult {
        if value == 0x00 {
            UpdateResult::Normal
        } else if value == 0xF0 {
            UpdateResult::CmdFormatError
        } else if value == 0xF1 {
            UpdateResult::TimeoutError
        } else if value == 0xF2 {
            UpdateResult::ChecksumError
        } else if value == 0xF3 {
            UpdateResult::NumberError
        } else if value == 0xF4 {
            UpdateResult::OtherError
        } else {
            UpdateResult::Other(value)
        }
    }
}

impl UpdateResult {
    /// Classifies a raw result byte.
    pub fn from_byte(value: u8) -> (result: UpdateResult)
        ensures
            result == UpdateResult::spec_from_byte(value),
    {
        match value {
            0x00 => UpdateResult::Normal,
            0xF0 => UpdateResult::CmdFormatError,
            0xF1 => UpdateResult::TimeoutError,
            0xF2 => UpdateResult::ChecksumError,
            0xF3 => UpdateResult::NumberError,
            0xF4 => UpdateResult::OtherError,
            _ => UpdateResult::Other(value),
        }
    }
}

impl From<u8> for UpdateResult {
    fn from(value: u8) -> (result: UpdateResult) {
        UpdateResult::from_byte(value)
    }
}

impl vstd::std_specs::convert::FromSpecImpl<u8> for UpdateResult {
    open spec fn obeys_from_spec() -> bool {
        true
    }

    open spec fn from_spec(v: u8) -> UpdateResult {
        let value = v;
        if value == 0x00 {
            UpdateResult::Normal
        } else if value == 0xF0 {
            UpdateResult::CmdFormatError
        } else if value == 0xF1 {
            UpdateResult::TimeoutError
        } else if value == 0xF2 {
            UpdateResult::ChecksumError
        } else if value == 0xF3 {
            UpdateResult::NumberError
        } else if value == 0xF4 {
            UpdateResult::OtherError
        } else {
            UpdateResult::Other(value)
        }
    }
}

impl UpdateResult {
    /// The text that `{:?}` shows for the value.
    pub open spec fn spec_debug_text(self) -> Seq<char> {
        match self {
            UpdateResult::Normal => "Normal"@,
            UpdateResult::CmdFormatError => "CmdFormatError"@,
            UpdateResult::TimeoutError => "TimeoutError"@,
            UpdateResult::ChecksumError => "ChecksumError"@,
            UpdateResult::NumberError => "NumberError"@,
            UpdateResult::OtherError => "OtherError"@,
            UpdateResult::Other(x) => "Other("@ + dec_int(x as int) + ")"@,
        }
    }

    pub fn debug_text(self) -> (text: Vec<char>)
        ensures
            text@ == self.spec_debug_text(),
    {
        let mut text = Vec::new();
        match self {
            UpdateResult::Normal => push_str(&mut text, "Normal"),
            UpdateResult::CmdFormatError => push_str(&mut text, "CmdFormatError"),
            UpdateResult::TimeoutError => push_str(&mut text, "TimeoutError"),
            UpdateResult::ChecksumError => push_str(&mut text, "ChecksumError"),
            UpdateResult::NumberError => push_str(&mut text, "NumberError"),
            UpdateResult::OtherError => push_str(&mut text, "OtherError"),
            UpdateResult::Other(x) => {
                push_str(&mut text, "Other(");
                push_dec_i128(&mut text, x as i128);
                push_str(&mut text, ")");
            },
        }
        text
    }
}

/// Cause reported by the emergency notify.
#[derive(Debug, Clone, Copy, PartialEq, Eq)]
pub enum EmergencyResult {
    LaserSafetyModuleAbnormality,
    FirmwareAbort,
    MemsLaserAbnormality,
    UnderflowRecovered,
    Other(u8),
}

impl EmergencyResult {
    /// How a raw result byte is classified.
    pub open spec fn spec_from_byte(value: u8) -> EmergencyResult {
        if value == 0x80 {
            EmergencyResult::LaserSafetyModuleAbnormality
        } else if value == 0x81 {
            EmergencyResult::FirmwareAbort
        } else if value == 0x82 {
            EmergencyResult::MemsLaserAbnormality
        } else if value == 0x83 {
            EmergencyResult::UnderflowRecovered
        } else {
            EmergencyResult::Other(value)
        }
    }
}

impl EmergencyResult {
    /// Classifies a raw result byte.
    pub fn from_byte(value: u8) -> (result: EmergencyResult)
        ensures
            result == EmergencyResult::spec_from_byte(value),
    {
        match value {
            0x80 => EmergencyResult::LaserSafetyModuleAbnormality,
            0x81 => EmergencyResult::FirmwareAbort,
            0x82 => EmergencyResult::MemsLaserAbnormality,
            0x83 => EmergencyResult::UnderflowRecovered,
            _ => EmergencyResult::Other(value),
        }
    }
}

impl From<u8> for EmergencyResult {
    fn from(value: u8) -> (result: EmergencyResult) {
        EmergencyResult::from_byte(value)
    }
}

impl vstd::std_specs::convert::FromSpecImpl<u8> for EmergencyResult {
    open spec fn obeys_from_spec() -> bool {
        true
    }

    open spec fn from_spec(v: u8) -> EmergencyResult {
        let value = v;
        if value == 0x80 {
            EmergencyResult::LaserSafetyModuleAbnormality
        } else if value == 0x81 {
            EmergencyResult::FirmwareAbort
        } else if value == 0x82 {
            EmergencyResult::MemsLaserAbnormality
        } else if value == 0x83 {
            EmergencyResult::UnderflowRecovered
        } else {
            EmergencyResult::Other(value)
        }
    }
}

impl EmergencyResult {
    /// The text that `{:?}` shows for the value.
    pub open spec fn spec_debug_text(self) -> Seq<char> {
        match self {
            EmergencyResult::LaserSafetyModuleAbnormality => "LaserSafetyModuleAbnormality"@,
            EmergencyResult::FirmwareAbort => "FirmwareAbort"@,
            EmergencyResult::MemsLaserAbnormality => "MemsLaserAbnormality"@,
            EmergencyResult::UnderflowRecovered => "UnderflowRecovered"@,
            EmergencyResult::Other(x) => "Other("@ + dec_int(x as int) + ")"@,
        }
    }

    pub fn debug_text(self) -> (text: Vec<char>)
        ensures
            text@ == self.spec_debug_text(),
    {
        let mut text = Vec::new();
        match self {
            EmergencyResult::LaserSafetyModuleAbnormality => push_str(&mut text, "LaserSafetyModuleAbnormality"),
            EmergencyResult::FirmwareAbort => push_str(&mut text, "FirmwareAbort"),
            EmergencyResult::MemsLaserAbnormality => push_str(&mut text, "MemsLaserAbnormality"),
            EmergencyResult::UnderflowRecovered => push_str(&mut text, "UnderflowRecovered"),
            EmergencyResult::Other(x) => {
                push_str(&mut text, "Other(");
                push_dec_i128(&mut text, x as i128);
                push_str(&mut text, ")");
            },
        }
        text
    }
}

/// Event reported by the temperature emergency-and-recovery notify.
#[derive(Debug, Clone, Copy, PartialEq, Eq)]
pub enum TemperatureEmergencyRecoveryResult {
    MuteThresholdExceeded,
    SystemThresholdExceeded,
    RecoveredFromMuteThreshold,
    RecoveredFromSystemThreshold,
    Other(u8),
}

impl TemperatureEmergencyRecoveryResult {
    /// How a raw result byte is classified.
    pub open spec fn spec_from_byte(value: u8) -> TemperatureEmergencyRecoveryResult {
        if value == 0x80 {
            TemperatureEmergencyRecoveryResult::MuteThresholdExceeded
        } else if value == 0x81 {
            TemperatureEmergencyRecoveryResult::SystemThresholdExceeded
        } else if value == 0x00 {
            TemperatureEmergencyRecoveryResult::RecoveredFromMuteThreshold
        } else if value == 0x01 {
            TemperatureEmergencyRecoveryResult::RecoveredFromSystemThreshold
        } else {
            TemperatureEmergencyRecoveryResult::Other(value)
        }
    }
}

impl TemperatureEmergencyRecoveryResult {
    /// Classifies a raw result byte.
    pub fn from_byte(value: u8) -> (result: TemperatureEmergencyRecoveryResult)
        ensures
            result == TemperatureEmergencyRecoveryResult::spec_from_byte(value),
    {
        match value {
            0x80 => TemperatureEmergencyRecoveryResult::MuteThresholdExceeded,
            0x81 => TemperatureEmergencyRecoveryResult::SystemThresholdExceeded,
            0x00 => TemperatureEmergencyRecoveryResult::RecoveredFromMuteThreshold,
            0x01 => TemperatureEmergencyRecoveryResult::RecoveredFromSystemThreshold,
            _ => TemperatureEmergencyRecoveryResult::Other(value),
        }
    }
}

impl From<u8> for TemperatureEmergencyRecoveryResult {
    fn from(value: u8) -> (result: TemperatureEmergencyRecoveryResult) {
        TemperatureEmergencyRecoveryResult::from_byte(value)
    }
}

impl vstd::std_specs::convert::FromSpecImpl<u8> for TemperatureEmergencyRecoveryResult {
    open spec fn obeys_from_spec() -> bool {
        true
    }

    open spec fn from_spec(v: u8) -> TemperatureEmergencyRecoveryResult {
        let value = v;
        if value == 0x80 {
            TemperatureEmergencyRecoveryResult::MuteThresholdExceeded
        } else if value == 0x81 {
            TemperatureEmergencyRecoveryResult::SystemThresholdExceeded
        } else if value == 0x00 {
            TemperatureEmergencyRecoveryResult::RecoveredFromMuteThreshold
        } else if value == 0x01 {
            TemperatureEmergencyRecoveryResult::RecoveredFromSystemThreshold
        } else {
            TemperatureEmergencyRecoveryResult::Other(value)
        }
    }
}

impl TemperatureEmergencyRecoveryResult {
    /// The text that `{:?}` shows for the value.
    pub open spec fn spec_debug_text(self) -> Seq<char> {
        match self {
            TemperatureEmergencyRecoveryResult::MuteThresholdExceeded => "MuteThresholdExceeded"@,
            TemperatureEmergencyRecoveryResult::SystemThresholdExceeded => "SystemThresholdExceeded"@,
            TemperatureEmergencyRecoveryResult::RecoveredFromMuteThreshold => "RecoveredFromMuteThreshold"@,
            TemperatureEmergencyRecoveryResult::RecoveredFromSystemThreshold => "RecoveredFromSystemThreshold"@,
            TemperatureEmergencyRecoveryResult::Other(x) => "Other("@ + dec_int(x as int) + ")"@,
        }
    }

    pub fn debug_text(self) -> (text: Vec<char>)
        ensures
            text@ == self.spec_debug_text(),
    {
        let mut text = Vec::new();
        match self {
            TemperatureEmergencyRecoveryResult::MuteThresholdExceeded => push_str(&mut text, "MuteThresholdExceeded"),
            TemperatureEmergencyRecoveryResult::SystemThresholdExceeded => push_str(&mut text, "SystemThresholdExceeded"),
            TemperatureEmergencyRecoveryResult::RecoveredFromMuteThreshold => push_str(&mut text, "RecoveredFromMuteThreshold"),
            TemperatureEmergencyRecoveryResult::RecoveredFromSystemThreshold => push_str(&mut text, "RecoveredFromSystemThreshold"),
            TemperatureEmergencyRecoveryResult::Other(x) => {
                push_str(&mut text, "Other(");
                push_dec_i128(&mut text, x as i128);
                push_str(&mut text, ")");
            },
        }
        text
    }
}

/// Cause reported by the command emergency notify.
#[derive(Debug, Clone, Copy, PartialEq, Eq)]
pub enum CommandEmergencyResult {
    TooManyCommands,
    ReceptionTimeout,
    Other(u8),
}

impl CommandEmergencyResult {
    /// How a raw result byte is classified.
    pub open spec fn spec_from_byte(value: u8) -> CommandEmergencyResult {
        if value == 0xFB {
            CommandEmergencyResult::TooManyCommands
        } else if value == 0xF0 {
            CommandEmergencyResult::ReceptionTimeout
        } else {
            CommandEmergencyResult::Other(value)
        }
    }
}

impl CommandEmergencyResult {
    /// Classifies a raw result byte.
    pub fn from_byte(value: u8) -> (result: CommandEmergencyResult)
        ensures
            result == CommandEmergencyResult::spec_from_byte(value),
    {
        match value {
            0xFB => CommandEmergencyResult::TooManyCommands,
            0xF0 => CommandEmergencyResult::ReceptionTimeout,
            _ => CommandEmergencyResult::Other(value),
        }
    }
}

impl From<u8> for CommandEmergencyResult {
    fn from(value: u8) -> (result: CommandEmergencyResult) {
        CommandEmergencyResult::from_byte(value)
    }
}

impl vstd::std_specs::convert::FromSpecImpl<u8> for CommandEmergencyResult {
    open spec fn obeys_from_spec() -> bool {
        true
    }

    open spec fn from_spec(v: u8) -> CommandEmergencyResult {
        let value = v;
        if value == 0xFB {
            CommandEmergencyResult::TooManyCommands
        } else if value == 0xF0 {
            CommandEmergencyResult::ReceptionTimeout
        } else {
            CommandEmergencyResult::Other(value)
        }
    }
}

impl CommandEmergencyResult {
    /// The text that `{:?}` shows for the value.
    pub open spec fn spec_debug_text(self) -> Seq<char> {
        match self {
            CommandEmergencyResult::TooManyCommands => "TooManyCommands"@,
            CommandEmergencyResult::ReceptionTimeout => "ReceptionTimeout"@,
            CommandEmergencyResult::Other(x) => "Other("@ + dec_int(x as int) + ")"@,
        }
    }

    pub fn debug_text(self) -> (text: Vec<char>)
        ensures
            text@ == self.spec_debug_text(),
    {
        let mut text = Vec::new();
        match self {
            CommandEmergencyResult::TooManyCommands => push_str(&mut text, "TooManyCommands"),
            CommandEmergencyResult::ReceptionTimeout => push_str(&mut text, "ReceptionTimeout"),
            CommandEmergencyResult::Other(x) => {
                push_str(&mut text, "Other(");
                push_dec_i128(&mut text, x as i128);
                push_str(&mut text, ")");
            },
        }
        text
    }
}


// ---------------------------------------------------------------------------
// The result tables, the same whether a byte is read with `from_byte` or `From<u8>`
// ---------------------------------------------------------------------------

/// The boot result table: `0x00` normal, `0x80` malfunction, `0x81..=0x84` the failures
/// numbered 1 to 4, `0xFE` parameter transaction failure, anything else unknown.
pub proof fn lemma_boot_result_table(b: u8)
    ensures
        <BootResult as FromSpec<u8>>::from_spec(b) == BootResult::spec_from_byte(b),
        (BootResult::spec_from_byte(b) == BootResult::Normal) <==> b == 0x00,
        (BootResult::spec_from_byte(b) == BootResult::InternalMalfunction) <==> b == 0x80,
        (BootResult::spec_from_byte(b) is InternalFailure) <==> 0x81 <= b <= 0x84,
        BootResult::spec_from_byte(b) matches BootResult::InternalFailure(n) ==> n == b - 0x80
            && 1 <= n <= 4,
        (BootResult::spec_from_byte(b) == BootResult::ParameterTransactionFailure) <==> b == 0xFE,
        (BootResult::spec_from_byte(b) is Unknown) <==> !(b == 0x00 || 0x80 <= b <= 0x84 || b
            == 0xFE),
        BootResult::spec_from_byte(b) matches BootResult::Unknown(x) ==> x == b,
{
    if 0x81 <= b <= 0x84 {
        assert(b & 0x0F == b - 0x80) by (bit_vector)
            requires
                0x81 <= b <= 0x84,
        ;
    }
}

/// The command result table: `0x00` normal, `0x80..=0x8F` abnormal with that code, any
/// other byte kept as it is.
pub proof fn lemma_command_result_table(b: u8)
    ensures
        <CommandResult as FromSpec<u8>>::from_spec(b) == CommandResult::spec_from_byte(b),
        (CommandResult::spec_from_byte(b) == CommandResult::Normal) <==> b == 0x00,
        (CommandResult::spec_from_byte(b) is Abnormal) <==> 0x80 <= b <= 0x8F,
        (CommandResult::spec_from_byte(b) is Other) <==> !(b == 0x00 || 0x80 <= b <= 0x8F),
        CommandResult::spec_from_byte(b) matches CommandResult::Abnormal(x) ==> x == b,
        CommandResult::spec_from_byte(b) matches CommandResult::Other(x) ==> x == b,
{
}

/// The adjustment control table: `0x00` executed, `0x01` completed, `0x80..=0x8F`
/// abnormal, any other byte kept as it is.
pub proof fn lemma_adjustment_control_result_table(b: u8)
    ensures
        <AdjustmentControlResult as FromSpec<u8>>::from_spec(b) == AdjustmentControlResult::spec_from_byte(b),
        (AdjustmentControlResult::spec_from_byte(b) == AdjustmentControlResult::Executed) <==> b
            == 0x00,
        (AdjustmentControlResult::spec_from_byte(b) == AdjustmentControlResult::Completed) <==> b
            == 0x01,
        (AdjustmentControlResult::spec_from_byte(b) is Abnormal) <==> 0x80 <= b <= 0x8F,
        (AdjustmentControlResult::spec_from_byte(b) is Other) <==> !(b <= 0x01 || 0x80 <= b
            <= 0x8F),
        AdjustmentControlResult::spec_from_byte(b) matches AdjustmentControlResult::Abnormal(x)
            ==> x == b,
        AdjustmentControlResult::spec_from_byte(b) matches AdjustmentControlResult::Other(x) ==> x
            == b,
{
}

/// The adjustment step table: `0x00` normal, `0x80..=0x8F` abnormal, `0xFE` limit
/// exceeded, any other byte kept as it is.
pub proof fn lemma_adjustment_step_result_table(b: u8)
    ensures
        <AdjustmentStepResult as FromSpec<u8>>::from_spec(b) == AdjustmentStepResult::spec_from_byte(b),
        (AdjustmentStepResult::spec_from_byte(b) == AdjustmentStepResult::Normal) <==> b == 0x00,
        (AdjustmentStepResult::spec_from_byte(b) is Abnormal) <==> 0x80 <= b <= 0x8F,
        (AdjustmentStepResult::spec_from_byte(b) == AdjustmentStepResult::LimitExceeded) <==> b
            == 0xFE,
        (AdjustmentStepResult::spec_from_byte(b) is Other) <==> !(b == 0x00 || 0x80 <= b <= 0x8F
            || b == 0xFE),
        AdjustmentStepResult::spec_from_byte(b) matches AdjustmentStepResult::Abnormal(x) ==> x
            == b,
        AdjustmentStepResult::spec_from_byte(b) matches AdjustmentStepResult::Other(x) ==> x == b,
{
}

/// The update result table: `0x00` normal, `0xF0` command format, `0xF1` timeout, `0xF2`
/// checksum, `0xF3` number, `0xF4` other error, any other byte kept as it is.
pub proof fn lemma_update_result_table(b: u8)
    ensures
        <UpdateResult as FromSpec<u8>>::from_spec(b) == UpdateResult::spec_from_byte(b),
        (UpdateResult::spec_from_byte(b) == UpdateResult::Normal) <==> b == 0x00,
        (UpdateResult::spec_from_byte(b) == UpdateResult::CmdFormatError) <==> b == 0xF0,
        (UpdateResult::spec_from_byte(b) == UpdateResult::TimeoutError) <==> b == 0xF1,
        (UpdateResult::spec_from_byte(b) == UpdateResult::ChecksumError) <==> b == 0xF2,
        (UpdateResult::spec_from_byte(b) == UpdateResult::NumberError) <==> b == 0xF3,
        (UpdateResult::spec_from_byte(b) == UpdateResult::OtherError) <==> b == 0xF4,
        (UpdateResult::spec_from_byte(b) is Other) <==> !(b == 0x00 || 0xF0 <= b <= 0xF4),
        UpdateResult::spec_from_byte(b) matches UpdateResult::Other(x) ==> x == b,
{
}

/// The emergency table: `0x80` laser safety module, `0x81` firmware abort, `0x82` MEMS
/// laser, `0x83` underflow recovered, any other byte kept as it is.
pub proof fn lemma_emergency_result_table(b: u8)
    ensures
        <EmergencyResult as FromSpec<u8>>::from_spec(b) == EmergencyResult::spec_from_byte(b),
        (EmergencyResult::spec_from_byte(b) == EmergencyResult::LaserSafetyModuleAbnormality)
            <==> b == 0x80,
        (EmergencyResult::spec_from_byte(b) == EmergencyResult::FirmwareAbort) <==> b == 0x81,
        (EmergencyResult::spec_from_byte(b) == EmergencyResult::MemsLaserAbnormality) <==> b
            == 0x82,
        (EmergencyResult::spec_from_byte(b) == EmergencyResult::UnderflowRecovered) <==> b == 0x83,
        (EmergencyResult::spec_from_byte(b) is Other) <==> !(0x80 <= b <= 0x83),
        EmergencyResult::spec_from_byte(b) matches EmergencyResult::Other(x) ==> x == b,
{
}

/// The temperature table: `0x80` mute threshold exceeded, `0x81` system threshold
/// exceeded, `0x00` recovered from the mute threshold, `0x01` recovered from the system
/// threshold, any other byte kept as it is.
pub proof fn lemma_temperature_emergency_result_table(b: u8)
    ensures
        <TemperatureEmergencyRecoveryResult as FromSpec<u8>>::from_spec(b) == TemperatureEmergencyRecoveryResult::spec_from_byte(b),
        (TemperatureEmergencyRecoveryResult::spec_from_byte(b)
            == TemperatureEmergencyRecoveryResult::MuteThresholdExceeded) <==> b == 0x80,
        (TemperatureEmergencyRecoveryResult::spec_from_byte(b)
            == TemperatureEmergencyRecoveryResult::SystemThresholdExceeded) <==> b == 0x81,
        (TemperatureEmergencyRecoveryResult::spec_from_byte(b)
            == TemperatureEmergencyRecoveryResult::RecoveredFromMuteThreshold) <==> b == 0x00,
        (TemperatureEmergencyRecoveryResult::spec_from_byte(b)
            == TemperatureEmergencyRecoveryResult::RecoveredFromSystemThreshold) <==> b == 0x01,
        (TemperatureEmergencyRecoveryResult::spec_from_byte(b) is Other) <==> !(b <= 0x01 || 0x80
            <= b <= 0x81),
        TemperatureEmergencyRecoveryResult::spec_from_byte(b) matches TemperatureEmergencyRecoveryResult::Other(x) ==> x == b,
{
}

/// The command emergency table: `0xFB` too many commands, `0xF0` reception timeout, any
/// other byte kept as it is.
pub proof fn lemma_command_emergency_result_table(b: u8)
    ensures
        <CommandEmergencyResult as FromSpec<u8>>::from_spec(b) == CommandEmergencyResult::spec_from_byte(b),
        (CommandEmergencyResult::spec_from_byte(b) == CommandEmergencyResult::TooManyCommands)
            <==> b == 0xFB,
        (CommandEmergencyResult::spec_from_byte(b) == CommandEmergencyResult::ReceptionTimeout)
            <==> b == 0xF0,
        (CommandEmergencyResult::spec_from_byte(b) is Other) <==> !(b == 0xFB || b == 0xF0),
        CommandEmergencyResult::spec_from_byte(b) matches CommandEmergencyResult::Other(x) ==> x
            == b,
{
}
} // verus!
