use vstd::prelude::*;

use crate::commands::CommandError;
use crate::text::push_str;

verus! {


/// A one-byte option of the command set; each variant has a fixed wire value.
#[derive(Debug, Clone, Copy, PartialEq, Eq)]
pub enum StoppedOutput {
    OpeningPicture,
    MuteBlackPicture,
    MuteOpeningPicture,
    FinalPicture,
}

impl StoppedOutput {
    /// The wire value of the variant.
    pub open spec fn spec_byte(self) -> u8 {
        match self {
            StoppedOutput::OpeningPicture => 0x00,
            StoppedOutput::MuteBlackPicture => 0x01,
            StoppedOutput::MuteOpeningPicture => 0x02,
            StoppedOutput::FinalPicture => 0x04,
        }
    }

    /// The variant whose wire value is `value`, or the error naming this type.
    pub open spec fn spec_from_byte(value: u8) -> Result<StoppedOutput, CommandError> {
        if value == 0x00 {
            Ok(StoppedOutput::OpeningPicture)
        } else if value == 0x01 {
            Ok(StoppedOutput::MuteBlackPicture)
        } else if value == 0x02 {
            Ok(StoppedOutput::MuteOpeningPicture)
        } else if value == 0x04 {
            Ok(StoppedOutput::FinalPicture)
        } else {
            Err(CommandError::InvalidValue { field: "StoppedOutput", value })
        }
    }

    /// Decoding the wire value of a variant gives the variant back.
    pub proof fn lemma_byte_roundtrip(self)
        ensures
            StoppedOutput::spec_from_byte(self.spec_byte()) == Ok::<StoppedOutput, CommandError>(self),
    {
    }

    /// A byte decodes to a variant only if it is that variant's wire value.
    pub proof fn lemma_byte_decodes_exactly(value: u8)
        ensures
            StoppedOutput::spec_from_byte(value) matches Ok(v) ==> v.spec_byte() == value,
    {
    }
}

impl StoppedOutput {
    /// The wire value of the variant.
    pub fn to_byte(self) -> (byte: u8)
        ensures
            byte == self.spec_byte(),
    {
        match self {
            StoppedOutput::OpeningPicture => 0x00,
            StoppedOutput::MuteBlackPicture => 0x01,
            StoppedOutput::MuteOpeningPicture => 0x02,
            StoppedOutput::FinalPicture => 0x04,
        }
    }

    /// The variant whose wire value is `value`.
    pub fn from_byte(value: u8) -> (decoded: Result<StoppedOutput, CommandError>)
        ensures
            decoded == StoppedOutput::spec_from_byte(value),
    {
        match value {
            0x00 => Ok(StoppedOutput::OpeningPicture),
            0x01 => Ok(StoppedOutput::MuteBlackPicture),
            0x02 => Ok(StoppedOutput::MuteOpeningPicture),
            0x04 => Ok(StoppedOutput::FinalPicture),
            _ => Err(CommandError::InvalidValue { field: "StoppedOutput", value }),
        }
    }
}

impl From<StoppedOutput> for u8 {
    fn from(value: StoppedOutput) -> (byte: u8) {
        value.to_byte()
    }
}

impl vstd::std_specs::convert::FromSpecImpl<StoppedOutput> for u8 {
    open spec fn obeys_from_spec() -> bool {
        true
    }

    open spec fn from_spec(v: StoppedOutput) -> u8 {
        v.spec_byte()
    }
}

impl TryFrom<u8> for StoppedOutput {
    type Error = CommandError;

    fn try_from(value: u8) -> (decoded: Result<StoppedOutput, CommandError>) {
        StoppedOutput::from_byte(value)
    }
}

impl vstd::std_specs::convert::TryFromSpecImpl<u8> for StoppedOutput {
    open spec fn obeys_try_from_spec() -> bool {
        true
    }

    open spec fn try_from_spec(v: u8) -> Result<StoppedOutput, CommandError> {
        StoppedOutput::spec_from_byte(v)
    }
}


/// A one-byte option of the command set; each variant has a fixed wire value.
#[derive(Debug, Clone, Copy, PartialEq, Eq)]
pub enum MuteOutput {
    Unmute,
    MuteBlackPicture,
    MuteOpeningPicture,
    FinalPicture,
}

impl MuteOutput {
    /// The wire value of the variant.
    pub open spec fn spec_byte(self) -> u8 {
        match self {
            MuteOutput::Unmute => 0x00,
            MuteOutput::MuteBlackPicture => 0x01,
            MuteOutput::MuteOpeningPicture => 0x02,
            MuteOutput::FinalPicture => 0x04,
        }
    }

    /// The variant whose wire value is `value`, or the error naming this type.
    pub open spec fn spec_from_byte(value: u8) -> Result<MuteOutput, CommandError> {
        if value == 0x00 {
            Ok(MuteOutput::Unmute)
        } else if value == 0x01 {
            Ok(MuteOutput::MuteBlackPicture)
        } else if value == 0x02 {
            Ok(MuteOutput::MuteOpeningPicture)
        } else if value == 0x04 {
            Ok(MuteOutput::FinalPicture)
        } else {
            Err(CommandError::InvalidValue { field: "MuteOutput", value })
        }
    }

    /// Decoding the wire value of a variant gives the variant back.
    pub proof fn lemma_byte_roundtrip(self)
        ensures
            MuteOutput::spec_from_byte(self.spec_byte()) == Ok::<MuteOutput, CommandError>(self),
    {
    }

    /// A byte decodes to a variant only if it is that variant's wire value.
    pub proof fn lemma_byte_decodes_exactly(value: u8)
        ensures
            MuteOutput::spec_from_byte(value) matches Ok(v) ==> v.spec_byte() == value,
    {
    }
}

impl MuteOutput {
    /// The wire value of the variant.
    pub fn to_byte(self) -> (byte: u8)
        ensures
            byte == self.spec_byte(),
    {
        match self {
            MuteOutput::Unmute => 0x00,
            MuteOutput::MuteBlackPicture => 0x01,
            MuteOutput::MuteOpeningPicture => 0x02,
            MuteOutput::FinalPicture => 0x04,
        }
    }

    /// The variant whose wire value is `value`.
    pub fn from_byte(value: u8) -> (decoded: Result<MuteOutput, CommandError>)
        ensures
            decoded == MuteOutput::spec_from_byte(value),
    {
        match value {
            0x00 => Ok(MuteOutput::Unmute),
            0x01 => Ok(MuteOutput::MuteBlackPicture),
            0x02 => Ok(MuteOutput::MuteOpeningPicture),
            0x04 => Ok(MuteOutput::FinalPicture),
            _ => Err(CommandError::InvalidValue { field: "MuteOutput", value }),
        }
    }
}

impl From<MuteOutput> for u8 {
    fn from(value: MuteOutput) -> (byte: u8) {
        value.to_byte()
    }
}

impl vstd::std_specs::convert::FromSpecImpl<MuteOutput> for u8 {
    open spec fn obeys_from_spec() -> bool {
        true
    }

    open spec fn from_spec(v: MuteOutput) -> u8 {
        v.spec_byte()
    }
}

impl TryFrom<u8> for MuteOutput {
    type Error = CommandError;

    fn try_from(value: u8) -> (decoded: Result<MuteOutput, CommandError>) {
        MuteOutput::from_byte(value)
    }
}

impl vstd::std_specs::convert::TryFromSpecImpl<u8> for MuteOutput {
    open spec fn obeys_try_from_spec() -> bool {
        true
    }

    open spec fn try_from_spec(v: u8) -> Result<MuteOutput, CommandError> {
        MuteOutput::spec_from_byte(v)
    }
}


/// A one-byte option of the command set; each variant has a fixed wire value.
#[derive(Debug, Clone, Copy, PartialEq, Eq)]
pub enum SaveVideoPosition {
    DontSave,
    All,
    FlipOnly,
}

impl SaveVideoPosition {
    /// The wire value of the variant.
    pub open spec fn spec_byte(self) -> u8 {
        match self {
            SaveVideoPosition::DontSave => 0x00,
            SaveVideoPosition::All => 0x01,
            SaveVideoPosition::FlipOnly => 0x02,
        }
    }

    /// The variant whose wire value is `value`, or the error naming this type.
    pub open spec fn spec_from_byte(value: u8) -> Result<SaveVideoPosition, CommandError> {
        if value == 0x00 {
            Ok(SaveVideoPosition::DontSave)
        } else if value == 0x01 {
            Ok(SaveVideoPosition::All)
        } else if value == 0x02 {
            Ok(SaveVideoPosition::FlipOnly)
        } else {
            Err(CommandError::InvalidValue { field: "SaveVideoPosition", value })
        }
    }

    /// Decoding the wire value of a variant gives the variant back.
    pub proof fn lemma_byte_roundtrip(self)
        ensures
            SaveVideoPosition::spec_from_byte(self.spec_byte()) == Ok::<SaveVideoPosition, CommandError>(self),
    {
    }

    /// A byte decodes to a variant only if it is that variant's wire value.
    pub proof fn lemma_byte_decodes_exactly(value: u8)
        ensures
            SaveVideoPosition::spec_from_byte(value) matches Ok(v) ==> v.spec_byte() == value,
    {
    }
}

impl SaveVideoPosition {
    /// The wire value of the variant.
    pub fn to_byte(self) -> (byte: u8)
        ensures
            byte == self.spec_byte(),
    {
        match self {
            SaveVideoPosition::DontSave => 0x00,
            SaveVideoPosition::All => 0x01,
            SaveVideoPosition::FlipOnly => 0x02,
        }
    }

    /// The variant whose wire value is `value`.
    pub fn from_byte(value: u8) -> (decoded: Result<SaveVideoPosition, CommandError>)
        ensures
            decoded == SaveVideoPosition::spec_from_byte(value),
    {
        match value {
            0x00 => Ok(SaveVideoPosition::DontSave),
            0x01 => Ok(SaveVideoPosition::All),
            0x02 => Ok(SaveVideoPosition::FlipOnly),
            _ => Err(CommandError::InvalidValue { field: "SaveVideoPosition", value }),
        }
    }
}

impl From<SaveVideoPosition> for u8 {
    fn from(value: SaveVideoPosition) -> (byte: u8) {
        value.to_byte()
    }
}

impl vstd::std_specs::convert::FromSpecImpl<SaveVideoPosition> for u8 {
    open spec fn obeys_from_spec() -> bool {
        true
    }

    open spec fn from_spec(v: SaveVideoPosition) -> u8 {
        v.spec_byte()
    }
}

impl TryFrom<u8> for SaveVideoPosition {
    type Error = CommandError;

    fn try_from(value: u8) -> (decoded: Result<SaveVideoPosition, CommandError>) {
        SaveVideoPosition::from_byte(value)
    }
}

impl vstd::std_specs::convert::TryFromSpecImpl<u8> for SaveVideoPosition {
    open spec fn obeys_try_from_spec() -> bool {
        true
    }

    open spec fn try_from_spec(v: u8) -> Result<SaveVideoPosition, CommandError> {
        SaveVideoPosition::spec_from_byte(v)
    }
}


/// A one-byte option of the command set; each variant has a fixed wire value.
#[derive(Debug, Clone, Copy, PartialEq, Eq)]
pub enum SaveOpticalAlignmentBiphase {
    DontSave,
    All,
    OpticalAlignmentOnly,
    BiphaseOnly,
}

impl SaveOpticalAlignmentBiphase {
    /// The wire value of the variant.
    pub open spec fn spec_byte(self) -> u8 {
        match self {
            SaveOpticalAlignmentBiphase::DontSave => 0x00,
            SaveOpticalAlignmentBiphase::All => 0x01,
            SaveOpticalAlignmentBiphase::OpticalAlignmentOnly => 0x02,
            SaveOpticalAlignmentBiphase::BiphaseOnly => 0x03,
        }
    }

    /// The variant whose wire value is `value`, or the error naming this type.
    pub open spec fn spec_from_byte(value: u8) -> Result<SaveOpticalAlignmentBiphase, CommandError> {
        if value == 0x00 {
            Ok(SaveOpticalAlignmentBiphase::DontSave)
        } else if value == 0x01 {
            Ok(SaveOpticalAlignmentBiphase::All)
        } else if value == 0x02 {
            Ok(SaveOpticalAlignmentBiphase::OpticalAlignmentOnly)
        } else if value == 0x03 {
            Ok(SaveOpticalAlignmentBiphase::BiphaseOnly)
        } else {
            Err(CommandError::InvalidValue { field: "SaveOpticalAlignmentBiphase", value })
        }
    }

    /// Decoding the wire value of a variant gives the variant back.
    pub proof fn lemma_byte_roundtrip(self)
        ensures
            SaveOpticalAlignmentBiphase::spec_from_byte(self.spec_byte()) == Ok::<SaveOpticalAlignmentBiphase, CommandError>(self),
    {
    }

    /// A byte decodes to a variant only if it is that variant's wire value.
    pub proof fn lemma_byte_decodes_exactly(value: u8)
        ensures
            SaveOpticalAlignmentBiphase::spec_from_byte(value) matches Ok(v) ==> v.spec_byte() == value,
    {
    }
}

impl SaveOpticalAlignmentBiphase {
    /// The wire value of the variant.
    pub fn to_byte(self) -> (byte: u8)
        ensures
            byte == self.spec_byte(),
    {
        match self {
            SaveOpticalAlignmentBiphase::DontSave => 0x00,
            SaveOpticalAlignmentBiphase::All => 0x01,
            SaveOpticalAlignmentBiphase::OpticalAlignmentOnly => 0x02,
            SaveOpticalAlignmentBiphase::BiphaseOnly => 0x03,
        }
    }

    /// The variant whose wire value is `value`.
    pub fn from_byte(value: u8) -> (decoded: Result<SaveOpticalAlignmentBiphase, CommandError>)
        ensures
            decoded == SaveOpticalAlignmentBiphase::spec_from_byte(value),
    {
        match value {
            0x00 => Ok(SaveOpticalAlignmentBiphase::DontSave),
            0x01 => Ok(SaveOpticalAlignmentBiphase::All),
            0x02 => Ok(SaveOpticalAlignmentBiphase::OpticalAlignmentOnly),
            0x03 => Ok(SaveOpticalAlignmentBiphase::BiphaseOnly),
            _ => Err(CommandError::InvalidValue { field: "SaveOpticalAlignmentBiphase", value }),
        }
    }
}

impl From<SaveOpticalAlignmentBiphase> for u8 {
    fn from(value: SaveOpticalAlignmentBiphase) -> (byte: u8) {
        value.to_byte()
    }
}

impl vstd::std_specs::convert::FromSpecImpl<SaveOpticalAlignmentBiphase> for u8 {
    open spec fn obeys_from_spec() -> bool {
        true
    }

    open spec fn from_spec(v: SaveOpticalAlignmentBiphase) -> u8 {
        v.spec_byte()
    }
}

impl TryFrom<u8> for SaveOpticalAlignmentBiphase {
    type Error = CommandError;

    fn try_from(value: u8) -> (decoded: Result<SaveOpticalAlignmentBiphase, CommandError>) {
        SaveOpticalAlignmentBiphase::from_byte(value)
    }
}

impl vstd::std_specs::convert::TryFromSpecImpl<u8> for SaveOpticalAlignmentBiphase {
    open spec fn obeys_try_from_spec() -> bool {
        true
    }

    open spec fn try_from_spec(v: u8) -> Result<SaveOpticalAlignmentBiphase, CommandError> {
        SaveOpticalAlignmentBiphase::spec_from_byte(v)
    }
}


/// A one-byte option of the command set; each variant has a fixed wire value.
#[derive(Debug, Clone, Copy, PartialEq, Eq)]
pub enum SavePictureQuality {
    DontSave,
    Save,
}

impl SavePictureQuality {
    /// The wire value of the variant.
    pub open spec fn spec_byte(self) -> u8 {
        match self {
            SavePictureQuality::DontSave => 0x00,
            SavePictureQuality::Save => 0x01,
        }
    }

    /// The variant whose wire value is `value`, or the error naming this type.
    pub open spec fn spec_from_byte(value: u8) -> Result<SavePictureQuality, CommandError> {
        if value == 0x00 {
            Ok(SavePictureQuality::DontSave)
        } else if value == 0x01 {
            Ok(SavePictureQuality::Save)
        } else {
            Err(CommandError::InvalidValue { field: "SavePictureQuality", value })
        }
    }

    /// Decoding the wire value of a variant gives the variant back.
    pub proof fn lemma_byte_roundtrip(self)
        ensures
            SavePictureQuality::spec_from_byte(self.spec_byte()) == Ok::<SavePictureQuality, CommandError>(self),
    {
    }

    /// A byte decodes to a variant only if it is that variant's wire value.
    pub proof fn lemma_byte_decodes_exactly(value: u8)
        ensures
            SavePictureQuality::spec_from_byte(value) matches Ok(v) ==> v.spec_byte() == value,
    {
    }
}

impl SavePictureQuality {
    /// The wire value of the variant.
    pub fn to_byte(self) -> (byte: u8)
        ensures
            byte == self.spec_byte(),
    {
        match self {
            SavePictureQuality::DontSave => 0x00,
            SavePictureQuality::Save => 0x01,
        }
    }

    /// The variant whose wire value is `value`.
    pub fn from_byte(value: u8) -> (decoded: Result<SavePictureQuality, CommandError>)
        ensures
            decoded == SavePictureQuality::spec_from_byte(value),
    {
        match value {
            0x00 => Ok(SavePictureQuality::DontSave),
            0x01 => Ok(SavePictureQuality::Save),
            _ => Err(CommandError::InvalidValue { field: "SavePictureQuality", value }),
        }
    }
}

impl From<SavePictureQuality> for u8 {
    fn from(value: SavePictureQuality) -> (byte: u8) {
        value.to_byte()
    }
}

impl vstd::std_specs::convert::FromSpecImpl<SavePictureQuality> for u8 {
    open spec fn obeys_from_spec() -> bool {
        true
    }

    open spec fn from_spec(v: SavePictureQuality) -> u8 {
        v.spec_byte()
    }
}

impl TryFrom<u8> for SavePictureQuality {
    type Error = CommandError;

    fn try_from(value: u8) -> (decoded: Result<SavePictureQuality, CommandError>) {
        SavePictureQuality::from_byte(value)
    }
}

impl vstd::std_specs::convert::TryFromSpecImpl<u8> for SavePictureQuality {
    open spec fn obeys_try_from_spec() -> bool {
        true
    }

    open spec fn try_from_spec(v: u8) -> Result<SavePictureQuality, CommandError> {
        SavePictureQuality::spec_from_byte(v)
    }
}


/// A one-byte option of the command set; each variant has a fixed wire value.
#[derive(Debug, Clone, Copy, PartialEq, Eq)]
pub enum ShutdownOption {
    StopsAllFunctions,
    Reboot,
}

impl ShutdownOption {
    /// The wire value of the variant.
    pub open spec fn spec_byte(self) -> u8 {
        match self {
            ShutdownOption::StopsAllFunctions => 0x00,
            ShutdownOption::Reboot => 0x01,
        }
    }

    /// The variant whose wire value is `value`, or the error naming this type.
    pub open spec fn spec_from_byte(value: u8) -> Result<ShutdownOption, CommandError> {
        if value == 0x00 {
            Ok(ShutdownOption::StopsAllFunctions)
        } else if value == 0x01 {
            Ok(ShutdownOption::Reboot)
        } else {
            Err(CommandError::InvalidValue { field: "ShutdownOption", value })
        }
    }

    /// Decoding the wire value of a variant gives the variant back.
    pub proof fn lemma_byte_roundtrip(self)
        ensures
            ShutdownOption::spec_from_byte(self.spec_byte()) == Ok::<ShutdownOption, CommandError>(self),
    {
    }

    /// A byte decodes to a variant only if it is that variant's wire value.
    pub proof fn lemma_byte_decodes_exactly(value: u8)
        ensures
            ShutdownOption::spec_from_byte(value) matches Ok(v) ==> v.spec_byte() == value,
    {
    }
}

impl ShutdownOption {
    /// The wire value of the variant.
    pub fn to_byte(self) -> (byte: u8)
        ensures
            byte == self.spec_byte(),
    {
        match self {
            ShutdownOption::StopsAllFunctions => 0x00,
            ShutdownOption::Reboot => 0x01,
        }
    }

    /// The variant whose wire value is `value`.
    pub fn from_byte(value: u8) -> (decoded: Result<ShutdownOption, CommandError>)
        ensures
            decoded == ShutdownOption::spec_from_byte(value),
    {
        match value {
            0x00 => Ok(ShutdownOption::StopsAllFunctions),
            0x01 => Ok(ShutdownOption::Reboot),
            _ => Err(CommandError::InvalidValue { field: "ShutdownOption", value }),
        }
    }
}

impl From<ShutdownOption> for u8 {
    fn from(value: ShutdownOption) -> (byte: u8) {
        value.to_byte()
    }
}

impl vstd::std_specs::convert::FromSpecImpl<ShutdownOption> for u8 {
    open spec fn obeys_from_spec() -> bool {
        true
    }

    open spec fn from_spec(v: ShutdownOption) -> u8 {
        v.spec_byte()
    }
}

impl TryFrom<u8> for ShutdownOption {
    type Error = CommandError;

    fn try_from(value: u8) -> (decoded: Result<ShutdownOption, CommandError>) {
        ShutdownOption::from_byte(value)
    }
}

impl vstd::std_specs::convert::TryFromSpecImpl<u8> for ShutdownOption {
    open spec fn obeys_try_from_spec() -> bool {
        true
    }

    open spec fn try_from_spec(v: u8) -> Result<ShutdownOption, CommandError> {
        ShutdownOption::spec_from_byte(v)
    }
}


/// A one-byte option of the command set; each variant has a fixed wire value.
#[derive(Debug, Clone, Copy, PartialEq, Eq)]
pub enum Flip {
    Off,
    RightLeft,
    UpDown,
    UpDownAndRightLeft,
}

impl Flip {
    /// The wire value of the variant.
    pub open spec fn spec_byte(self) -> u8 {
        match self {
            Flip::Off => 0x00,
            Flip::RightLeft => 0x01,
            Flip::UpDown => 0x02,
            Flip::UpDownAndRightLeft => 0x03,
        }
    }

    /// The variant whose wire value is `value`, or the error naming this type.
    pub open spec fn spec_from_byte(value: u8) -> Result<Flip, CommandError> {
        if value == 0x00 {
            Ok(Flip::Off)
        } else if value == 0x01 {
            Ok(Flip::RightLeft)
        } else if value == 0x02 {
            Ok(Flip::UpDown)
        } else if value == 0x03 {
            Ok(Flip::UpDownAndRightLeft)
        } else {
            Err(CommandError::InvalidValue { field: "Flip", value })
        }
    }

    /// Decoding the wire value of a variant gives the variant back.
    pub proof fn lemma_byte_roundtrip(self)
        ensures
            Flip::spec_from_byte(self.spec_byte()) == Ok::<Flip, CommandError>(self),
    {
    }

    /// A byte decodes to a variant only if it is that variant's wire value.
    pub proof fn lemma_byte_decodes_exactly(value: u8)
        ensures
            Flip::spec_from_byte(value) matches Ok(v) ==> v.spec_byte() == value,
    {
    }
}

impl Flip {
    /// The wire value of the variant.
    pub fn to_byte(self) -> (byte: u8)
        ensures
            byte == self.spec_byte(),
    {
        match self {
            Flip::Off => 0x00,
            Flip::RightLeft => 0x01,
            Flip::UpDown => 0x02,
            Flip::UpDownAndRightLeft => 0x03,
        }
    }

    /// The variant whose wire value is `value`.
    pub fn from_byte(value: u8) -> (decoded: Result<Flip, CommandError>)
        ensures
            decoded == Flip::spec_from_byte(value),
    {
        match value {
            0x00 => Ok(Flip::Off),
            0x01 => Ok(Flip::RightLeft),
            0x02 => Ok(Flip::UpDown),
            0x03 => Ok(Flip::UpDownAndRightLeft),
            _ => Err(CommandError::InvalidValue { field: "Flip", value }),
        }
    }
}

impl From<Flip> for u8 {
    fn from(value: Flip) -> (byte: u8) {
        value.to_byte()
    }
}

impl vstd::std_specs::convert::FromSpecImpl<Flip> for u8 {
    open spec fn obeys_from_spec() -> bool {
        true
    }

    open spec fn from_spec(v: Flip) -> u8 {
        v.spec_byte()
    }
}

impl TryFrom<u8> for Flip {
    type Error = CommandError;

    fn try_from(value: u8) -> (decoded: Result<Flip, CommandError>) {
        Flip::from_byte(value)
    }
}

impl vstd::std_specs::convert::TryFromSpecImpl<u8> for Flip {
    open spec fn obeys_try_from_spec() -> bool {
        true
    }

    open spec fn try_from_spec(v: u8) -> Result<Flip, CommandError> {
        Flip::spec_from_byte(v)
    }
}


/// A one-byte option of the command set; each variant has a fixed wire value.
#[derive(Debug, Clone, Copy, PartialEq, Eq)]
pub enum SaveAdjustment {
    DontSave,
    Save,
}

impl SaveAdjustment {
    /// The wire value of the variant.
    pub open spec fn spec_byte(self) -> u8 {
        match self {
            SaveAdjustment::DontSave => 0x00,
            SaveAdjustment::Save => 0x01,
        }
    }

    /// The variant whose wire value is `value`, or the error naming this type.
    pub open spec fn spec_from_byte(value: u8) -> Result<SaveAdjustment, CommandError> {
        if value == 0x00 {
            Ok(SaveAdjustment::DontSave)
        } else if value == 0x01 {
            Ok(SaveAdjustment::Save)
        } else {
            Err(CommandError::InvalidValue { field: "SaveAdjustment", value })
        }
    }

    /// Decoding the wire value of a variant gives the variant back.
    pub proof fn lemma_byte_roundtrip(self)
        ensures
            SaveAdjustment::spec_from_byte(self.spec_byte()) == Ok::<SaveAdjustment, CommandError>(self),
    {
    }

    /// A byte decodes to a variant only if it is that variant's wire value.
    pub proof fn lemma_byte_decodes_exactly(value: u8)
        ensures
            SaveAdjustment::spec_from_byte(value) matches Ok(v) ==> v.spec_byte() == value,
    {
    }
}

impl SaveAdjustment {
    /// The wire value of the variant.
    pub fn to_byte(self) -> (byte: u8)
        ensures
            byte == self.spec_byte(),
    {
        match self {
            SaveAdjustment::DontSave => 0x00,
            SaveAdjustment::Save => 0x01,
        }
    }

    /// The variant whose wire value is `value`.
    pub fn from_byte(value: u8) -> (decoded: Result<SaveAdjustment, CommandError>)
        ensures
            decoded == SaveAdjustment::spec_from_byte(value),
    {
        match value {
            0x00 => Ok(SaveAdjustment::DontSave),
            0x01 => Ok(SaveAdjustment::Save),
            _ => Err(CommandError::InvalidValue { field: "SaveAdjustment", value }),
        }
    }
}

impl From<SaveAdjustment> for u8 {
    fn from(value: SaveAdjustment) -> (byte: u8) {
        value.to_byte()
    }
}

impl vstd::std_specs::convert::FromSpecImpl<SaveAdjustment> for u8 {
    open spec fn obeys_from_spec() -> bool {
        true
    }

    open spec fn from_spec(v: SaveAdjustment) -> u8 {
        v.spec_byte()
    }
}

impl TryFrom<u8> for SaveAdjustment {
    type Error = CommandError;

    fn try_from(value: u8) -> (decoded: Result<SaveAdjustment, CommandError>) {
        SaveAdjustment::from_byte(value)
    }
}

impl vstd::std_specs::convert::TryFromSpecImpl<u8> for SaveAdjustment {
    open spec fn obeys_try_from_spec() -> bool {
        true
    }

    open spec fn try_from_spec(v: u8) -> Result<SaveAdjustment, CommandError> {
        SaveAdjustment::spec_from_byte(v)
    }
}


/// A one-byte option of the command set; each variant has a fixed wire value.
#[derive(Debug, Clone, Copy, PartialEq, Eq)]
pub enum DivisionTransmissionFormat {
    Size64,
    Size256,
    Size1K,
    Size4K,
    Size16K,
}

impl DivisionTransmissionFormat {
    /// The wire value of the variant.
    pub open spec fn spec_byte(self) -> u8 {
        match self {
            DivisionTransmissionFormat::Size64 => 0x00,
            DivisionTransmissionFormat::Size256 => 0x01,
            DivisionTransmissionFormat::Size1K => 0x02,
            DivisionTransmissionFormat::Size4K => 0x03,
            DivisionTransmissionFormat::Size16K => 0x04,
        }
    }

    /// The variant whose wire value is `value`, or the error naming this type.
    pub open spec fn spec_from_byte(value: u8) -> Result<DivisionTransmissionFormat, CommandError> {
        if value == 0x00 {
            Ok(DivisionTransmissionFormat::Size64)
        } else if value == 0x01 {
            Ok(DivisionTransmissionFormat::Size256)
        } else if value == 0x02 {
            Ok(DivisionTransmissionFormat::Size1K)
        } else if value == 0x03 {
            Ok(DivisionTransmissionFormat::Size4K)
        } else if value == 0x04 {
            Ok(DivisionTransmissionFormat::Size16K)
        } else {
            Err(CommandError::InvalidValue { field: "DivisionTransmissionFormat", value })
        }
    }

    /// Decoding the wire value of a variant gives the variant back.
    pub proof fn lemma_byte_roundtrip(self)
        ensures
            DivisionTransmissionFormat::spec_from_byte(self.spec_byte()) == Ok::<DivisionTransmissionFormat, CommandError>(self),
    {
    }

    /// A byte decodes to a variant only if it is that variant's wire value.
    pub proof fn lemma_byte_decodes_exactly(value: u8)
        ensures
            DivisionTransmissionFormat::spec_from_byte(value) matches Ok(v) ==> v.spec_byte() == value,
    {
    }
}

impl DivisionTransmissionFormat {
    /// The wire value of the variant.
    pub fn to_byte(self) -> (byte: u8)
        ensures
            byte == self.spec_byte(),
    {
        match self {
            DivisionTransmissionFormat::Size64 => 0x00,
            DivisionTransmissionFormat::Size256 => 0x01,
            DivisionTransmissionFormat::Size1K => 0x02,
            DivisionTransmissionFormat::Size4K => 0x03,
            DivisionTransmissionFormat::Size16K => 0x04,
        }
    }

    /// The variant whose wire value is `value`.
    pub fn from_byte(value: u8) -> (decoded: Result<DivisionTransmissionFormat, CommandError>)
        ensures
            decoded == DivisionTransmissionFormat::spec_from_byte(value),
    {
        match value {
            0x00 => Ok(DivisionTransmissionFormat::Size64),
            0x01 => Ok(DivisionTransmissionFormat::Size256),
            0x02 => Ok(DivisionTransmissionFormat::Size1K),
            0x03 => Ok(DivisionTransmissionFormat::Size4K),
            0x04 => Ok(DivisionTransmissionFormat::Size16K),
            _ => Err(CommandError::InvalidValue { field: "DivisionTransmissionFormat", value }),
        }
    }
}

impl From<DivisionTransmissionFormat> for u8 {
    fn from(value: DivisionTransmissionFormat) -> (byte: u8) {
        value.to_byte()
    }
}

impl vstd::std_specs::convert::FromSpecImpl<DivisionTransmissionFormat> for u8 {
    open spec fn obeys_from_spec() -> bool {
        true
    }

    open spec fn from_spec(v: DivisionTransmissionFormat) -> u8 {
        v.spec_byte()
    }
}

impl TryFrom<u8> for DivisionTransmissionFormat {
    type Error = CommandError;

    fn try_from(value: u8) -> (decoded: Result<DivisionTransmissionFormat, CommandError>) {
        DivisionTransmissionFormat::from_byte(value)
    }
}

impl vstd::std_specs::convert::TryFromSpecImpl<u8> for DivisionTransmissionFormat {
    open spec fn obeys_try_from_spec() -> bool {
        true
    }

    open spec fn try_from_spec(v: u8) -> Result<DivisionTransmissionFormat, CommandError> {
        DivisionTransmissionFormat::spec_from_byte(v)
    }
}


/// A one-byte option of the command set; each variant has a fixed wire value.
#[derive(Debug, Clone, Copy, PartialEq, Eq)]
pub enum TestPattern {
    Stop,
    ColorBar,
    CrossHatching,
    Raster,
    Ramp,
    Circle,
    Cross,
    CircleAndCross,
    FilledCircle,
    FilledSquare,
    Checkerboard,
    ResolutionCheckerVerticalLines,
    ResolutionCheckerHorizontalLines,
    ResolutionCheckerSquare,
    ColorBarRampSpecial,
    RectangularHatchEven,
    RectangularHatchEqualCrossHatchInterval,
}

impl TestPattern {
    /// The wire value of the variant.
    pub open spec fn spec_byte(self) -> u8 {
        match self {
            TestPattern::Stop => 0x00,
            TestPattern::ColorBar => 0x01,
            TestPattern::CrossHatching => 0x02,
            TestPattern::Raster => 0x03,
            TestPattern::Ramp => 0x04,
            TestPattern::Circle => 0x05,
            TestPattern::Cross => 0x06,
            TestPattern::CircleAndCross => 0x07,
            TestPattern::FilledCircle => 0x08,
            TestPattern::FilledSquare => 0x09,
            TestPattern::Checkerboard => 0x0A,
            TestPattern::ResolutionCheckerVerticalLines => 0x0B,
            TestPattern::ResolutionCheckerHorizontalLines => 0x0C,
            TestPattern::ResolutionCheckerSquare => 0x0D,
            TestPattern::ColorBarRampSpecial => 0x0E,
            TestPattern::RectangularHatchEven => 0x0F,
            TestPattern::RectangularHatchEqualCrossHatchInterval => 0x10,
        }
    }

    /// The variant whose wire value is `value`, or the error naming this type.
    pub open spec fn spec_from_byte(value: u8) -> Result<TestPattern, CommandError> {
        if value == 0x00 {
            Ok(TestPattern::Stop)
        } else if value == 0x01 {
            Ok(TestPattern::ColorBar)
        } else if value == 0x02 {
            Ok(TestPattern::CrossHatching)
        } else if value == 0x03 {
            Ok(TestPattern::Raster)
        } else if value == 0x04 {
            Ok(TestPattern::Ramp)
        } else if value == 0x05 {
            Ok(TestPattern::Circle)
        } else if value == 0x06 {
            Ok(TestPattern::Cross)
        } else if value == 0x07 {
            Ok(TestPattern::CircleAndCross)
        } else if value == 0x08 {
            Ok(TestPattern::FilledCircle)
        } else if value == 0x09 {
            Ok(TestPattern::FilledSquare)
        } else if value == 0x0A {
            Ok(TestPattern::Checkerboard)
        } else if value == 0x0B {
            Ok(TestPattern::ResolutionCheckerVerticalLines)
        } else if value == 0x0C {
            Ok(TestPattern::ResolutionCheckerHorizontalLines)
        } else if value == 0x0D {
            Ok(TestPattern::ResolutionCheckerSquare)
        } else if value == 0x0E {
            Ok(TestPattern::ColorBarRampSpecial)
        } else if value == 0x0F {
            Ok(TestPattern::RectangularHatchEven)
        } else if value == 0x10 {
            Ok(TestPattern::RectangularHatchEqualCrossHatchInterval)
        } else {
            Err(CommandError::InvalidValue { field: "TestPattern", value })
        }
    }

    /// Decoding the wire value of a variant gives the variant back.
    pub proof fn lemma_byte_roundtrip(self)
        ensures
            TestPattern::spec_from_byte(self.spec_byte()) == Ok::<TestPattern, CommandError>(self),
    {
    }

    /// A byte decodes to a variant only if it is that variant's wire value.
    pub proof fn lemma_byte_decodes_exactly(value: u8)
        ensures
            TestPattern::spec_from_byte(value) matches Ok(v) ==> v.spec_byte() == value,
    {
    }
}

impl TestPattern {
    /// The wire value of the variant.
    pub fn to_byte(self) -> (byte: u8)
        ensures
            byte == self.spec_byte(),
    {
        match self {
            TestPattern::Stop => 0x00,
            TestPattern::ColorBar => 0x01,
            TestPattern::CrossHatching => 0x02,
            TestPattern::Raster => 0x03,
            TestPattern::Ramp => 0x04,
            TestPattern::Circle => 0x05,
            TestPattern::Cross => 0x06,
            TestPattern::CircleAndCross => 0x07,
            TestPattern::FilledCircle => 0x08,
            TestPattern::FilledSquare => 0x09,
            TestPattern::Checkerboard => 0x0A,
            TestPattern::ResolutionCheckerVerticalLines => 0x0B,
            TestPattern::ResolutionCheckerHorizontalLines => 0x0C,
            TestPattern::ResolutionCheckerSquare => 0x0D,
            TestPattern::ColorBarRampSpecial => 0x0E,
            TestPattern::RectangularHatchEven => 0x0F,
            TestPattern::RectangularHatchEqualCrossHatchInterval => 0x10,
        }
    }

    /// The variant whose wire value is `value`.
    pub fn from_byte(value: u8) -> (decoded: Result<TestPattern, CommandError>)
        ensures
            decoded == TestPattern::spec_from_byte(value),
    {
        match value {
            0x00 => Ok(TestPattern::Stop),
            0x01 => Ok(TestPattern::ColorBar),
            0x02 => Ok(TestPattern::CrossHatching),
            0x03 => Ok(TestPattern::Raster),
            0x04 => Ok(TestPattern::Ramp),
            0x05 => Ok(TestPattern::Circle),
            0x06 => Ok(TestPattern::Cross),
            0x07 => Ok(TestPattern::CircleAndCross),
            0x08 => Ok(TestPattern::FilledCircle),
            0x09 => Ok(TestPattern::FilledSquare),
            0x0A => Ok(TestPattern::Checkerboard),
            0x0B => Ok(TestPattern::ResolutionCheckerVerticalLines),
            0x0C => Ok(TestPattern::ResolutionCheckerHorizontalLines),
            0x0D => Ok(TestPattern::ResolutionCheckerSquare),
            0x0E => Ok(TestPattern::ColorBarRampSpecial),
            0x0F => Ok(TestPattern::RectangularHatchEven),
            0x10 => Ok(TestPattern::RectangularHatchEqualCrossHatchInterval),
            _ => Err(CommandError::InvalidValue { field: "TestPattern", value }),
        }
    }
}

impl From<TestPattern> for u8 {
    fn from(value: TestPattern) -> (byte: u8) {
        value.to_byte()
    }
}

impl vstd::std_specs::convert::FromSpecImpl<TestPattern> for u8 {
    open spec fn obeys_from_spec() -> bool {
        true
    }

    open spec fn from_spec(v: TestPattern) -> u8 {
        v.spec_byte()
    }
}

impl TryFrom<u8> for TestPattern {
    type Error = CommandError;

    fn try_from(value: u8) -> (decoded: Result<TestPattern, CommandError>) {
        TestPattern::from_byte(value)
    }
}

impl vstd::std_specs::convert::TryFromSpecImpl<u8> for TestPattern {
    open spec fn obeys_try_from_spec() -> bool {
        true
    }

    open spec fn try_from_spec(v: u8) -> Result<TestPattern, CommandError> {
        TestPattern::spec_from_byte(v)
    }
}

impl Flip {
    /// The text that `{:?}` shows for the value.
    pub open spec fn spec_debug_text(self) -> Seq<char> {
        match self {
            Flip::Off => "Off"@,
            Flip::RightLeft => "RightLeft"@,
            Flip::UpDown => "UpDown"@,
            Flip::UpDownAndRightLeft => "UpDownAndRightLeft"@,
        }
    }

    pub fn debug_text(self) -> (text: Vec<char>)
        ensures
            text@ == self.spec_debug_text(),
    {
        let mut text = Vec::new();
        match self {
            Flip::Off => push_str(&mut text, "Off"),
            Flip::RightLeft => push_str(&mut text, "RightLeft"),
            Flip::UpDown => push_str(&mut text, "UpDown"),
            Flip::UpDownAndRightLeft => push_str(&mut text, "UpDownAndRightLeft"),
        }
        text
    }
}

// ---------------------------------------------------------------------------
// The wire values
// ---------------------------------------------------------------------------

/// The wire values of `StoppedOutput`: each variant has its own byte.
pub proof fn lemma_stopped_output_bytes(v: StoppedOutput)
    ensures
        (v.spec_byte() == 0x00) <==> v == StoppedOutput::OpeningPicture,
        (v.spec_byte() == 0x01) <==> v == StoppedOutput::MuteBlackPicture,
        (v.spec_byte() == 0x02) <==> v == StoppedOutput::MuteOpeningPicture,
        (v.spec_byte() == 0x04) <==> v == StoppedOutput::FinalPicture,
{
}

/// The wire values of `MuteOutput`: each variant has its own byte.
pub proof fn lemma_mute_output_bytes(v: MuteOutput)
    ensures
        (v.spec_byte() == 0x00) <==> v == MuteOutput::Unmute,
        (v.spec_byte() == 0x01) <==> v == MuteOutput::MuteBlackPicture,
        (v.spec_byte() == 0x02) <==> v == MuteOutput::MuteOpeningPicture,
        (v.spec_byte() == 0x04) <==> v == MuteOutput::FinalPicture,
{
}

/// The wire values of `SaveVideoPosition`: each variant has its own byte.
pub proof fn lemma_save_video_position_bytes(v: SaveVideoPosition)
    ensures
        (v.spec_byte() == 0x00) <==> v == SaveVideoPosition::DontSave,
        (v.spec_byte() == 0x01) <==> v == SaveVideoPosition::All,
        (v.spec_byte() == 0x02) <==> v == SaveVideoPosition::FlipOnly,
{
}

/// The wire values of `SaveOpticalAlignmentBiphase`: each variant has its own byte.
pub proof fn lemma_save_optical_alignment_biphase_bytes(v: SaveOpticalAlignmentBiphase)
    ensures
        (v.spec_byte() == 0x00) <==> v == SaveOpticalAlignmentBiphase::DontSave,
        (v.spec_byte() == 0x01) <==> v == SaveOpticalAlignmentBiphase::All,
        (v.spec_byte() == 0x02) <==> v == SaveOpticalAlignmentBiphase::OpticalAlignmentOnly,
        (v.spec_byte() == 0x03) <==> v == SaveOpticalAlignmentBiphase::BiphaseOnly,
{
}

/// The wire values of `SavePictureQuality`: each variant has its own byte.
pub proof fn lemma_save_picture_quality_bytes(v: SavePictureQuality)
    ensures
        (v.spec_byte() == 0x00) <==> v == SavePictureQuality::DontSave,
        (v.spec_byte() == 0x01) <==> v == SavePictureQuality::Save,
{
}

/// The wire values of `ShutdownOption`: each variant has its own byte.
pub proof fn lemma_shutdown_option_bytes(v: ShutdownOption)
    ensures
        (v.spec_byte() == 0x00) <==> v == ShutdownOption::StopsAllFunctions,
        (v.spec_byte() == 0x01) <==> v == ShutdownOption::Reboot,
{
}

/// The wire values of `Flip`: each variant has its own byte.
pub proof fn lemma_flip_bytes(v: Flip)
    ensures
        (v.spec_byte() == 0x00) <==> v == Flip::Off,
        (v.spec_byte() == 0x01) <==> v == Flip::RightLeft,
        (v.spec_byte() == 0x02) <==> v == Flip::UpDown,
        (v.spec_byte() == 0x03) <==> v == Flip::UpDownAndRightLeft,
{
}

/// The wire values of `SaveAdjustment`: each variant has its own byte.
pub proof fn lemma_save_adjustment_bytes(v: SaveAdjustment)
    ensures
        (v.spec_byte() == 0x00) <==> v == SaveAdjustment::DontSave,
        (v.spec_byte() == 0x01) <==> v == SaveAdjustment::Save,
{
}

/// The wire values of `DivisionTransmissionFormat`: each variant has its own byte.
pub proof fn lemma_division_transmission_format_bytes(v: DivisionTransmissionFormat)
    ensures
        (v.spec_byte() == 0x00) <==> v == DivisionTransmissionFormat::Size64,
        (v.spec_byte() == 0x01) <==> v == DivisionTransmissionFormat::Size256,
        (v.spec_byte() == 0x02) <==> v == DivisionTransmissionFormat::Size1K,
        (v.spec_byte() == 0x03) <==> v == DivisionTransmissionFormat::Size4K,
        (v.spec_byte() == 0x04) <==> v == DivisionTransmissionFormat::Size16K,
{
}

/// The wire values of `TestPattern`: each variant has its own byte.
pub proof fn lemma_test_pattern_bytes(v: TestPattern)
    ensures
        (v.spec_byte() == 0x00) <==> v == TestPattern::Stop,
        (v.spec_byte() == 0x01) <==> v == TestPattern::ColorBar,
        (v.spec_byte() == 0x02) <==> v == TestPattern::CrossHatching,
        (v.spec_byte() == 0x03) <==> v == TestPattern::Raster,
        (v.spec_byte() == 0x04) <==> v == TestPattern::Ramp,
        (v.spec_byte() == 0x05) <==> v == TestPattern::Circle,
        (v.spec_byte() == 0x06) <==> v == TestPattern::Cross,
        (v.spec_byte() == 0x07) <==> v == TestPattern::CircleAndCross,
        (v.spec_byte() == 0x08) <==> v == TestPattern::FilledCircle,
        (v.spec_byte() == 0x09) <==> v == TestPattern::FilledSquare,
        (v.spec_byte() == 0x0A) <==> v == TestPattern::Checkerboard,
        (v.spec_byte() == 0x0B) <==> v == TestPattern::ResolutionCheckerVerticalLines,
        (v.spec_byte() == 0x0C) <==> v == TestPattern::ResolutionCheckerHorizontalLines,
        (v.spec_byte() == 0x0D) <==> v == TestPattern::ResolutionCheckerSquare,
        (v.spec_byte() == 0x0E) <==> v == TestPattern::ColorBarRampSpecial,
        (v.spec_byte() == 0x0F) <==> v == TestPattern::RectangularHatchEven,
        (v.spec_byte() == 0x10) <==> v == TestPattern::RectangularHatchEqualCrossHatchInterval,
{
}

} // verus!
