use vstd::prelude::*;

use crate::args::join;
use crate::commands::{
    AdjustmentControlNotify, AdjustmentStepNotify, BootCompletedNotify, CXN0102Notify,
    CommandEmergencyNotify, CommandResultNotify, EmergencyNotify, ErrorResultNotify,
    GetAllPictureQualityNotify, GetBiphaseNotify, GetBrightnessNotify, GetContrastNotify,
    GetHueNotify, GetLotNumberNotify, GetOpticalAlignmentNotify, GetSaturationNotify,
    GetSerialNumberNotify, GetSharpnessNotify, GetTemperatureNotify, GetTimeNotify,
    GetVersionNotify, GetVideoOutputPositionNotify, OpticalAlignment, PictureQuality,
    TemperatureEmergencyAndRecoveryNotify, UpdateResultNotify,
};
use crate::json::{
    escape_char, field_json, field_json_text, join_parts, json_escaped, string_json,
    string_json_text,
};
use crate::request_json::{
    lemma_dec_int_plain, lemma_number_members_text_snoc, lemma_number_object_read_back,
    number_members, number_members_text, number_object_text, plain_number, value_at, JsonData,
};
use crate::text::{
    chars_eq_str, chars_of, dec_int, hex2, push_chars, push_dec_i128, push_hex2, push_str, views,
};

verus! {

/// Decimal text of a number.
pub fn dec_text(v: i128) -> (text: Vec<char>)
    requires
        -0x1_0000_0000_0000_0000 < v < 0x1_0000_0000_0000_0000,
    ensures
        text@ == dec_int(v as int),
{
    let mut text = Vec::new();
    push_dec_i128(&mut text, v);
    text
}

/// Decimal texts of bytes.
pub open spec fn dec_bytes(bytes: Seq<u8>) -> Seq<Seq<char>> {
    Seq::new(bytes.len(), |i: int| dec_int(bytes[i] as int))
}

/// Decimal texts of 32-bit values.
pub open spec fn dec_words(words: Seq<u32>) -> Seq<Seq<char>> {
    Seq::new(words.len(), |i: int| dec_int(words[i] as int))
}

fn dec_byte_parts(bytes: &[u8]) -> (parts: Vec<Vec<char>>)
    ensures
        views(parts@) == dec_bytes(bytes@),
{
    let mut parts: Vec<Vec<char>> = Vec::new();
    let mut i: usize = 0;
    while i < bytes.len()
        invariant
            i <= bytes@.len(),
            views(parts@) == dec_bytes(bytes@).take(i as int),
        decreases bytes@.len() - i,
    {
        let ghost before = views(parts@);
        let text = dec_text(bytes[i] as i128);
        parts.push(text);
        assert(views(parts@) =~= before.push(dec_int(bytes@[i as int] as int)));
        i = i + 1;
        assert(views(parts@) =~= dec_bytes(bytes@).take(i as int));
    }
    assert(dec_bytes(bytes@).take(i as int) =~= dec_bytes(bytes@));
    parts
}

fn dec_word_parts(words: &[u32]) -> (parts: Vec<Vec<char>>)
    ensures
        views(parts@) == dec_words(words@),
{
    let mut parts: Vec<Vec<char>> = Vec::new();
    let mut i: usize = 0;
    while i < words.len()
        invariant
            i <= words@.len(),
            views(parts@) == dec_words(words@).take(i as int),
        decreases words@.len() - i,
    {
        let ghost before = views(parts@);
        let text = dec_text(words[i] as i128);
        parts.push(text);
        assert(views(parts@) =~= before.push(dec_int(words@[i as int] as int)));
        i = i + 1;
        assert(views(parts@) =~= dec_words(words@).take(i as int));
    }
    assert(dec_words(words@).take(i as int) =~= dec_words(words@));
    parts
}

/// A version as dotted decimal parts, such as `1.2.3.4`.
pub open spec fn version_text(bytes: Seq<u8>) -> Seq<char> {
    join(dec_bytes(bytes), "."@)
}

pub fn format_version(bytes: &[u8]) -> (text: Vec<char>)
    ensures
        text@ == version_text(bytes@),
{
    let parts = dec_byte_parts(bytes);
    join_parts(parts.as_slice(), ".")
}

/// Bytes as comma-separated decimal values.
pub open spec fn byte_list_text(bytes: Seq<u8>) -> Seq<char> {
    join(dec_bytes(bytes), ","@)
}

pub fn format_byte_array(bytes: &[u8]) -> (text: Vec<char>)
    ensures
        text@ == byte_list_text(bytes@),
{
    let parts = dec_byte_parts(bytes);
    join_parts(parts.as_slice(), ",")
}

/// A JSON array of byte values.
pub open spec fn u8_array_text(bytes: Seq<u8>) -> Seq<char> {
    seq!['['] + join(dec_bytes(bytes), ","@) + seq![']']
}

pub fn u8_array_json(bytes: &[u8]) -> (text: Vec<char>)
    ensures
        text@ == u8_array_text(bytes@),
{
    let mut text = Vec::new();
    text.push('[');
    let inner = format_byte_array(bytes);
    push_chars(&mut text, inner.as_slice());
    text.push(']');
    assert(text@ =~= u8_array_text(bytes@));
    text
}

/// A JSON array of 32-bit values.
pub open spec fn u32_array_text(words: Seq<u32>) -> Seq<char> {
    seq!['['] + join(dec_words(words), ","@) + seq![']']
}

pub fn u32_array_json(words: &[u32]) -> (text: Vec<char>)
    ensures
        text@ == u32_array_text(words@),
{
    let mut text = Vec::new();
    text.push('[');
    let parts = dec_word_parts(words);
    let inner = join_parts(parts.as_slice(), ",");
    push_chars(&mut text, inner.as_slice());
    text.push(']');
    assert(text@ =~= u32_array_text(words@));
    text
}

/// Bytes as two lowercase hexadecimal digits each, separated by spaces.
pub open spec fn hex_text(bytes: Seq<u8>) -> Seq<char>
    decreases bytes.len(),
{
    if bytes.len() == 0 {
        Seq::empty()
    } else if bytes.len() == 1 {
        hex2(bytes[0])
    } else {
        hex_text(bytes.drop_last()) + seq![' '] + hex2(bytes.last())
    }
}

pub fn format_hex(bytes: &[u8]) -> (text: Vec<char>)
    ensures
        text@ == hex_text(bytes@),
{
    let mut text = Vec::new();
    let mut i: usize = 0;
    while i < bytes.len()
        invariant
            i <= bytes@.len(),
            text@ == hex_text(bytes@.take(i as int)),
        decreases bytes@.len() - i,
    {
        assert(bytes@.take(i + 1).drop_last() =~= bytes@.take(i as int));
        if i > 0 {
            text.push(' ');
        }
        push_hex2(&mut text, bytes[i]);
        i = i + 1;
        proof {
            if i == 1 {
                assert(hex_text(bytes@.take(0)) =~= Seq::<char>::empty());
            }
        }
        assert(text@ =~= hex_text(bytes@.take(i as int)));
    }
    assert(bytes@.take(i as int) =~= bytes@);
    text
}

/// The JSON object of a notify: its command id, its type name, then its own fields.
#[verifier::opaque]
pub open spec fn object_text(command: Seq<char>, fields: Seq<Seq<char>>) -> Seq<char> {
    seq!['{'] + join(
        seq![
            field_json_text("command_id"@, dec_int(spec_notify_command_id_from_name(command) as int)),
            field_json_text("type"@, string_json_text(command)),
        ] + fields,
        ","@,
    ) + seq!['}']
}

pub fn object_json(command: &str, fields: Vec<Vec<char>>) -> (text: Vec<char>)
    ensures
        text@ == object_text(command@, views(fields@)),
{
    let name = chars_of(command);
    let mut fields = fields;
    let ghost given = views(fields@);
    let mut all_fields: Vec<Vec<char>> = Vec::new();
    let id_field = field_json("command_id", dec_text(notify_command_id_from_name(name.as_slice()) as i128));
    all_fields.push(id_field);
    let type_field = field_json("type", string_json(name.as_slice()));
    all_fields.push(type_field);
    let ghost head = views(all_fields@);
    assert(head =~= seq![
        field_json_text("command_id"@, dec_int(spec_notify_command_id_from_name(command@) as int)),
        field_json_text("type"@, string_json_text(command@)),
    ]);
    all_fields.append(&mut fields);
    assert(views(all_fields@) =~= head + given);
    let mut text = Vec::new();
    text.push('{');
    let inner = join_parts(all_fields.as_slice(), ",");
    push_chars(&mut text, inner.as_slice());
    text.push('}');
    proof {
        reveal(object_text);
    }
    assert(text@ =~= object_text(command@, given));
    text
}

/// `{"r0_horizontal":..,...,"b_vertical":..}` for an alignment.
pub open spec fn alignment_json_text(a: OpticalAlignment) -> Seq<char> {
    "{\"r0_horizontal\":"@ + dec_int(a.r0_horizontal.0 as int) + ",\"r1_horizontal\":"@ + dec_int(
        a.r1_horizontal.0 as int,
    ) + ",\"g0_horizontal\":"@ + dec_int(a.g0_horizontal.0 as int) + ",\"g1_horizontal\":"@
        + dec_int(a.g1_horizontal.0 as int) + ",\"b_horizontal\":"@ + dec_int(
        a.b_horizontal.0 as int,
    ) + ",\"r0_vertical\":"@ + dec_int(a.r0_vertical as int) + ",\"r1_vertical\":"@ + dec_int(
        a.r1_vertical as int,
    ) + ",\"g0_vertical\":"@ + dec_int(a.g0_vertical as int) + ",\"g1_vertical\":"@ + dec_int(
        a.g1_vertical as int,
    ) + ",\"b_vertical\":"@ + dec_int(a.b_vertical as int) + "}"@
}

fn alignment_json(a: &OpticalAlignment) -> (text: Vec<char>)
    ensures
        text@ == alignment_json_text(*a),
{
    let mut text = Vec::new();
    push_str(&mut text, "{\"r0_horizontal\":");
    push_dec_i128(&mut text, a.r0_horizontal.0 as i128);
    push_str(&mut text, ",\"r1_horizontal\":");
    push_dec_i128(&mut text, a.r1_horizontal.0 as i128);
    push_str(&mut text, ",\"g0_horizontal\":");
    push_dec_i128(&mut text, a.g0_horizontal.0 as i128);
    push_str(&mut text, ",\"g1_horizontal\":");
    push_dec_i128(&mut text, a.g1_horizontal.0 as i128);
    push_str(&mut text, ",\"b_horizontal\":");
    push_dec_i128(&mut text, a.b_horizontal.0 as i128);
    push_str(&mut text, ",\"r0_vertical\":");
    push_dec_i128(&mut text, a.r0_vertical as i128);
    push_str(&mut text, ",\"r1_vertical\":");
    push_dec_i128(&mut text, a.r1_vertical as i128);
    push_str(&mut text, ",\"g0_vertical\":");
    push_dec_i128(&mut text, a.g0_vertical as i128);
    push_str(&mut text, ",\"g1_vertical\":");
    push_dec_i128(&mut text, a.g1_vertical as i128);
    push_str(&mut text, ",\"b_vertical\":");
    push_dec_i128(&mut text, a.b_vertical as i128);
    push_str(&mut text, "}");
    text
}

/// `{"contrast":..,...,"sharpness":..}` for picture-quality settings.
pub open spec fn picture_quality_json_text(q: PictureQuality) -> Seq<char> {
    "{\"contrast\":"@ + dec_int(q.contrast as int) + ",\"brightness\":"@ + dec_int(
        q.brightness as int,
    ) + ",\"hue_u\":"@ + dec_int(q.hue_u as int) + ",\"hue_v\":"@ + dec_int(q.hue_v as int)
        + ",\"saturation_u\":"@ + dec_int(q.saturation_u as int) + ",\"saturation_v\":"@ + dec_int(
        q.saturation_v as int,
    ) + ",\"sharpness\":"@ + dec_int(q.sharpness as int) + "}"@
}

fn picture_quality_json(q: &PictureQuality) -> (text: Vec<char>)
    ensures
        text@ == picture_quality_json_text(*q),
{
    let mut text = Vec::new();
    push_str(&mut text, "{\"contrast\":");
    push_dec_i128(&mut text, q.contrast as i128);
    push_str(&mut text, ",\"brightness\":");
    push_dec_i128(&mut text, q.brightness as i128);
    push_str(&mut text, ",\"hue_u\":");
    push_dec_i128(&mut text, q.hue_u as i128);
    push_str(&mut text, ",\"hue_v\":");
    push_dec_i128(&mut text, q.hue_v as i128);
    push_str(&mut text, ",\"saturation_u\":");
    push_dec_i128(&mut text, q.saturation_u as i128);
    push_str(&mut text, ",\"saturation_v\":");
    push_dec_i128(&mut text, q.saturation_v as i128);
    push_str(&mut text, ",\"sharpness\":");
    push_dec_i128(&mut text, q.sharpness as i128);
    push_str(&mut text, "}");
    text
}

/// The command id of the frame that a notify answers.
pub open spec fn spec_notify_command_id(notify: CXN0102Notify) -> u8 {
    match notify {
        CXN0102Notify::BootCompleted(_) => 0x00,
        CXN0102Notify::StartInput(_) => 0x01,
        CXN0102Notify::StopInput(_) => 0x02,
        CXN0102Notify::StopInputSpecially(_) => 0x0C,
        CXN0102Notify::MuteUnmuteChangeOutput(_) => 0x03,
        CXN0102Notify::SaveUserParam(_) => 0x07,
        CXN0102Notify::InitializeUserParam(_) => 0x08,
        CXN0102Notify::ShutdownReboot(_) => 0x0B,
        CXN0102Notify::GetVideoOutputPosition(_) => 0x25,
        CXN0102Notify::SetVideoOutputPosition(_) => 0x26,
        CXN0102Notify::GetOpticalAlignment(_) => 0x27,
        CXN0102Notify::SetOpticalAlignment(_) => 0x28,
        CXN0102Notify::GetBiphase(_) => 0x29,
        CXN0102Notify::SetBiphase(_) => 0x2A,
        CXN0102Notify::EasyOpticalAdjustmentControl(_) => 0x32,
        CXN0102Notify::EasyOpticalAdjustmentPlus(_) => 0x33,
        CXN0102Notify::EasyOpticalAdjustmentMinus(_) => 0x34,
        CXN0102Notify::EasyOpticalAdjustmentExit(_) => 0x35,
        CXN0102Notify::EasyBiphaseAdjustmentControl(_) => 0x36,
        CXN0102Notify::EasyBiphaseAdjustmentPlus(_) => 0x37,
        CXN0102Notify::EasyBiphaseAdjustmentMinus(_) => 0x38,
        CXN0102Notify::EasyBiphaseAdjustmentExit(_) => 0x39,
        CXN0102Notify::GetAllPictureQuality(_) => 0x40,
        CXN0102Notify::SetAllPictureQuality(_) => 0x41,
        CXN0102Notify::GetBrightness(_) => 0x42,
        CXN0102Notify::SetBrightness(_) => 0x43,
        CXN0102Notify::GetContrast(_) => 0x44,
        CXN0102Notify::SetContrast(_) => 0x45,
        CXN0102Notify::GetHue(_) => 0x46,
        CXN0102Notify::SetHue(_) => 0x47,
        CXN0102Notify::GetSaturation(_) => 0x48,
        CXN0102Notify::SetSaturation(_) => 0x49,
        CXN0102Notify::GetSharpness(_) => 0x4E,
        CXN0102Notify::SetSharpness(_) => 0x4F,
        CXN0102Notify::UpdateFwImage(_) => 0x82,
        CXN0102Notify::UpdatePictureData(_) => 0x84,
        CXN0102Notify::DivisionTransmissionUpdateFwImage(_) => 0x92,
        CXN0102Notify::DivisionTransmissionUpdatePictureData(_) => 0x94,
        CXN0102Notify::GetTemperature(_) => 0xA0,
        CXN0102Notify::GetTime(_) => 0xA1,
        CXN0102Notify::GetVersion(_) => 0xA2,
        CXN0102Notify::OutputTestPicture(_) => 0xA3,
        CXN0102Notify::GetLotNumber(_) => 0xB2,
        CXN0102Notify::GetSerialNumber(_) => 0xB4,
        CXN0102Notify::Emergency(_) => 0x10,
        CXN0102Notify::TemperatureEmergencyAndRecovery(_) => 0x11,
        CXN0102Notify::CommandEmergency(_) => 0x12,
    }
}

pub fn notify_command_id(notify: &CXN0102Notify) -> (id: u8)
    ensures
        id == spec_notify_command_id(*notify),
{
    match notify {
        CXN0102Notify::BootCompleted(_) => 0x00,
        CXN0102Notify::StartInput(_) => 0x01,
        CXN0102Notify::StopInput(_) => 0x02,
        CXN0102Notify::StopInputSpecially(_) => 0x0C,
        CXN0102Notify::MuteUnmuteChangeOutput(_) => 0x03,
        CXN0102Notify::SaveUserParam(_) => 0x07,
        CXN0102Notify::InitializeUserParam(_) => 0x08,
        CXN0102Notify::ShutdownReboot(_) => 0x0B,
        CXN0102Notify::GetVideoOutputPosition(_) => 0x25,
        CXN0102Notify::SetVideoOutputPosition(_) => 0x26,
        CXN0102Notify::GetOpticalAlignment(_) => 0x27,
        CXN0102Notify::SetOpticalAlignment(_) => 0x28,
        CXN0102Notify::GetBiphase(_) => 0x29,
        CXN0102Notify::SetBiphase(_) => 0x2A,
        CXN0102Notify::EasyOpticalAdjustmentControl(_) => 0x32,
        CXN0102Notify::EasyOpticalAdjustmentPlus(_) => 0x33,
        CXN0102Notify::EasyOpticalAdjustmentMinus(_) => 0x34,
        CXN0102Notify::EasyOpticalAdjustmentExit(_) => 0x35,
        CXN0102Notify::EasyBiphaseAdjustmentControl(_) => 0x36,
        CXN0102Notify::EasyBiphaseAdjustmentPlus(_) => 0x37,
        CXN0102Notify::EasyBiphaseAdjustmentMinus(_) => 0x38,
        CXN0102Notify::EasyBiphaseAdjustmentExit(_) => 0x39,
        CXN0102Notify::GetAllPictureQuality(_) => 0x40,
        CXN0102Notify::SetAllPictureQuality(_) => 0x41,
        CXN0102Notify::GetBrightness(_) => 0x42,
        CXN0102Notify::SetBrightness(_) => 0x43,
        CXN0102Notify::GetContrast(_) => 0x44,
        CXN0102Notify::SetContrast(_) => 0x45,
        CXN0102Notify::GetHue(_) => 0x46,
        CXN0102Notify::SetHue(_) => 0x47,
        CXN0102Notify::GetSaturation(_) => 0x48,
        CXN0102Notify::SetSaturation(_) => 0x49,
        CXN0102Notify::GetSharpness(_) => 0x4E,
        CXN0102Notify::SetSharpness(_) => 0x4F,
        CXN0102Notify::UpdateFwImage(_) => 0x82,
        CXN0102Notify::UpdatePictureData(_) => 0x84,
        CXN0102Notify::DivisionTransmissionUpdateFwImage(_) => 0x92,
        CXN0102Notify::DivisionTransmissionUpdatePictureData(_) => 0x94,
        CXN0102Notify::GetTemperature(_) => 0xA0,
        CXN0102Notify::GetTime(_) => 0xA1,
        CXN0102Notify::GetVersion(_) => 0xA2,
        CXN0102Notify::OutputTestPicture(_) => 0xA3,
        CXN0102Notify::GetLotNumber(_) => 0xB2,
        CXN0102Notify::GetSerialNumber(_) => 0xB4,
        CXN0102Notify::Emergency(_) => 0x10,
        CXN0102Notify::TemperatureEmergencyAndRecovery(_) => 0x11,
        CXN0102Notify::CommandEmergency(_) => 0x12,
    }
}

/// The command id for a notify type name as the JSON replies write it, or 0 for an unknown
/// name.
pub open spec fn spec_notify_command_id_from_name(command: Seq<char>) -> u8 {
    if command == "boot-completed"@ {
        0x00
    } else if command == "start-input"@ {
        0x01
    } else if command == "stop-input"@ {
        0x02
    } else if command == "mute-unmute-change-output"@ {
        0x03
    } else if command == "save-user-param"@ {
        0x07
    } else if command == "initialize-user-param"@ {
        0x08
    } else if command == "shutdown-reboot"@ {
        0x0B
    } else if command == "stop-input-specially"@ {
        0x0C
    } else if command == "emergency"@ {
        0x10
    } else if command == "temperature-emergency-and-recovery"@ {
        0x11
    } else if command == "command-emergency"@ {
        0x12
    } else if command == "get-video-output-position"@ {
        0x25
    } else if command == "set-video-output-position"@ {
        0x26
    } else if command == "get-optical-alignment"@ {
        0x27
    } else if command == "set-optical-alignment"@ {
        0x28
    } else if command == "get-biphase"@ {
        0x29
    } else if command == "set-biphase"@ {
        0x2A
    } else if command == "set-easy-optical-adjustment-control"@ {
        0x32
    } else if command == "set-easy-optical-adjustment-plus"@ {
        0x33
    } else if command == "set-easy-optical-adjustment-minus"@ {
        0x34
    } else if command == "set-easy-optical-adjustment-exit"@ {
        0x35
    } else if command == "set-easy-biphase-adjustment-control"@ {
        0x36
    } else if command == "set-easy-biphase-adjustment-plus"@ {
        0x37
    } else if command == "set-easy-biphase-adjustment-minus"@ {
        0x38
    } else if command == "set-easy-biphase-adjustment-exit"@ {
        0x39
    } else if command == "get-all-picture-quality"@ {
        0x40
    } else if command == "set-all-picture-quality"@ {
        0x41
    } else if command == "get-brightness"@ {
        0x42
    } else if command == "set-brightness"@ {
        0x43
    } else if command == "get-contrast"@ {
        0x44
    } else if command == "set-contrast"@ {
        0x45
    } else if command == "get-hue"@ {
        0x46
    } else if command == "set-hue"@ {
        0x47
    } else if command == "get-saturation"@ {
        0x48
    } else if command == "set-saturation"@ {
        0x49
    } else if command == "get-sharpness"@ {
        0x4E
    } else if command == "set-sharpness"@ {
        0x4F
    } else if command == "update-fw-image"@ {
        0x82
    } else if command == "update-picture-data"@ {
        0x84
    } else if command == "division-transmission-update-fw-image"@ {
        0x92
    } else if command == "division-transmission-update-picture-data"@ {
        0x94
    } else if command == "get-temperature"@ {
        0xA0
    } else if command == "get-time"@ {
        0xA1
    } else if command == "get-version"@ {
        0xA2
    } else if command == "output-test-picture"@ {
        0xA3
    } else if command == "get-lot-number"@ {
        0xB2
    } else if command == "get-serial-number"@ {
        0xB4
    } else {
        0
    }
}

pub fn notify_command_id_from_name(command: &[char]) -> (id: u8)
    ensures
        id == spec_notify_command_id_from_name(command@),
{
    if chars_eq_str(command, "boot-completed") {
        return 0x00;
    }
    if chars_eq_str(command, "start-input") {
        return 0x01;
    }
    if chars_eq_str(command, "stop-input") {
        return 0x02;
    }
    if chars_eq_str(command, "mute-unmute-change-output") {
        return 0x03;
    }
    if chars_eq_str(command, "save-user-param") {
        return 0x07;
    }
    if chars_eq_str(command, "initialize-user-param") {
        return 0x08;
    }
    if chars_eq_str(command, "shutdown-reboot") {
        return 0x0B;
    }
    if chars_eq_str(command, "stop-input-specially") {
        return 0x0C;
    }
    if chars_eq_str(command, "emergency") {
        return 0x10;
    }
    if chars_eq_str(command, "temperature-emergency-and-recovery") {
        return 0x11;
    }
    if chars_eq_str(command, "command-emergency") {
        return 0x12;
    }
    if chars_eq_str(command, "get-video-output-position") {
        return 0x25;
    }
    if chars_eq_str(command, "set-video-output-position") {
        return 0x26;
    }
    if chars_eq_str(command, "get-optical-alignment") {
        return 0x27;
    }
    if chars_eq_str(command, "set-optical-alignment") {
        return 0x28;
    }
    if chars_eq_str(command, "get-biphase") {
        return 0x29;
    }
    if chars_eq_str(command, "set-biphase") {
        return 0x2A;
    }
    if chars_eq_str(command, "set-easy-optical-adjustment-control") {
        return 0x32;
    }
    if chars_eq_str(command, "set-easy-optical-adjustment-plus") {
        return 0x33;
    }
    if chars_eq_str(command, "set-easy-optical-adjustment-minus") {
        return 0x34;
    }
    if chars_eq_str(command, "set-easy-optical-adjustment-exit") {
        return 0x35;
    }
    if chars_eq_str(command, "set-easy-biphase-adjustment-control") {
        return 0x36;
    }
    if chars_eq_str(command, "set-easy-biphase-adjustment-plus") {
        return 0x37;
    }
    if chars_eq_str(command, "set-easy-biphase-adjustment-minus") {
        return 0x38;
    }
    if chars_eq_str(command, "set-easy-biphase-adjustment-exit") {
        return 0x39;
    }
    if chars_eq_str(command, "get-all-picture-quality") {
        return 0x40;
    }
    if chars_eq_str(command, "set-all-picture-quality") {
        return 0x41;
    }
    if chars_eq_str(command, "get-brightness") {
        return 0x42;
    }
    if chars_eq_str(command, "set-brightness") {
        return 0x43;
    }
    if chars_eq_str(command, "get-contrast") {
        return 0x44;
    }
    if chars_eq_str(command, "set-contrast") {
        return 0x45;
    }
    if chars_eq_str(command, "get-hue") {
        return 0x46;
    }
    if chars_eq_str(command, "set-hue") {
        return 0x47;
    }
    if chars_eq_str(command, "get-saturation") {
        return 0x48;
    }
    if chars_eq_str(command, "set-saturation") {
        return 0x49;
    }
    if chars_eq_str(command, "get-sharpness") {
        return 0x4E;
    }
    if chars_eq_str(command, "set-sharpness") {
        return 0x4F;
    }
    if chars_eq_str(command, "update-fw-image") {
        return 0x82;
    }
    if chars_eq_str(command, "update-picture-data") {
        return 0x84;
    }
    if chars_eq_str(command, "division-transmission-update-fw-image") {
        return 0x92;
    }
    if chars_eq_str(command, "division-transmission-update-picture-data") {
        return 0x94;
    }
    if chars_eq_str(command, "get-temperature") {
        return 0xA0;
    }
    if chars_eq_str(command, "get-time") {
        return 0xA1;
    }
    if chars_eq_str(command, "get-version") {
        return 0xA2;
    }
    if chars_eq_str(command, "output-test-picture") {
        return 0xA3;
    }
    if chars_eq_str(command, "get-lot-number") {
        return 0xB2;
    }
    if chars_eq_str(command, "get-serial-number") {
        return 0xB4;
    }
    0
}

/// The `type` that the JSON reply gives for a notify.
pub open spec fn spec_notify_type_name(notify: CXN0102Notify) -> Seq<char> {
    match notify {
        CXN0102Notify::BootCompleted(_) => "boot-completed"@,
        CXN0102Notify::StartInput(_) => "start-input"@,
        CXN0102Notify::StopInput(_) => "stop-input"@,
        CXN0102Notify::StopInputSpecially(_) => "stop-input-specially"@,
        CXN0102Notify::MuteUnmuteChangeOutput(_) => "mute-unmute-change-output"@,
        CXN0102Notify::SaveUserParam(_) => "save-user-param"@,
        CXN0102Notify::InitializeUserParam(_) => "initialize-user-param"@,
        CXN0102Notify::ShutdownReboot(_) => "shutdown-reboot"@,
        CXN0102Notify::GetVideoOutputPosition(_) => "get-video-output-position"@,
        CXN0102Notify::SetVideoOutputPosition(_) => "set-video-output-position"@,
        CXN0102Notify::GetOpticalAlignment(_) => "get-optical-alignment"@,
        CXN0102Notify::SetOpticalAlignment(_) => "set-optical-alignment"@,
        CXN0102Notify::GetBiphase(_) => "get-biphase"@,
        CXN0102Notify::SetBiphase(_) => "set-biphase"@,
        CXN0102Notify::EasyOpticalAdjustmentControl(_) => "set-easy-optical-adjustment-control"@,
        CXN0102Notify::EasyOpticalAdjustmentPlus(_) => "set-easy-optical-adjustment-plus"@,
        CXN0102Notify::EasyOpticalAdjustmentMinus(_) => "set-easy-optical-adjustment-minus"@,
        CXN0102Notify::EasyOpticalAdjustmentExit(_) => "set-easy-optical-adjustment-exit"@,
        CXN0102Notify::EasyBiphaseAdjustmentControl(_) => "set-easy-biphase-adjustment-control"@,
        CXN0102Notify::EasyBiphaseAdjustmentPlus(_) => "set-easy-biphase-adjustment-plus"@,
        CXN0102Notify::EasyBiphaseAdjustmentMinus(_) => "set-easy-biphase-adjustment-minus"@,
        CXN0102Notify::EasyBiphaseAdjustmentExit(_) => "set-easy-biphase-adjustment-exit"@,
        CXN0102Notify::GetAllPictureQuality(_) => "get-all-picture-quality"@,
        CXN0102Notify::SetAllPictureQuality(_) => "set-all-picture-quality"@,
        CXN0102Notify::GetBrightness(_) => "get-brightness"@,
        CXN0102Notify::SetBrightness(_) => "set-brightness"@,
        CXN0102Notify::GetContrast(_) => "get-contrast"@,
        CXN0102Notify::SetContrast(_) => "set-contrast"@,
        CXN0102Notify::GetHue(_) => "get-hue"@,
        CXN0102Notify::SetHue(_) => "set-hue"@,
        CXN0102Notify::GetSaturation(_) => "get-saturation"@,
        CXN0102Notify::SetSaturation(_) => "set-saturation"@,
        CXN0102Notify::GetSharpness(_) => "get-sharpness"@,
        CXN0102Notify::SetSharpness(_) => "set-sharpness"@,
        CXN0102Notify::UpdateFwImage(_) => "update-fw-image"@,
        CXN0102Notify::UpdatePictureData(_) => "update-picture-data"@,
        CXN0102Notify::DivisionTransmissionUpdateFwImage(_) => "division-transmission-update-fw-image"@,
        CXN0102Notify::DivisionTransmissionUpdatePictureData(_) => "division-transmission-update-picture-data"@,
        CXN0102Notify::GetTemperature(_) => "get-temperature"@,
        CXN0102Notify::GetTime(_) => "get-time"@,
        CXN0102Notify::GetVersion(_) => "get-version"@,
        CXN0102Notify::OutputTestPicture(_) => "output-test-picture"@,
        CXN0102Notify::GetLotNumber(_) => "get-lot-number"@,
        CXN0102Notify::GetSerialNumber(_) => "get-serial-number"@,
        CXN0102Notify::Emergency(_) => "emergency"@,
        CXN0102Notify::TemperatureEmergencyAndRecovery(_) => "temperature-emergency-and-recovery"@,
        CXN0102Notify::CommandEmergency(_) => "command-emergency"@,
    }
}

/// The fields of a notify's JSON that follow its `command_id` and `type`.
pub open spec fn spec_notify_fields(notify: CXN0102Notify) -> Seq<Seq<char>> {
    match notify {
        CXN0102Notify::BootCompleted(n) => seq![field_json_text("result"@, string_json_text(n.result.spec_debug_text()))],
        CXN0102Notify::StartInput(n) => seq![field_json_text("result"@, string_json_text(n.result.spec_debug_text()))],
        CXN0102Notify::StopInput(n) => seq![field_json_text("result"@, string_json_text(n.result.spec_debug_text()))],
        CXN0102Notify::StopInputSpecially(n) => seq![field_json_text("result"@, string_json_text(n.result.spec_debug_text()))],
        CXN0102Notify::MuteUnmuteChangeOutput(n) => seq![field_json_text("result"@, string_json_text(n.result.spec_debug_text()))],
        CXN0102Notify::SaveUserParam(n) => seq![field_json_text("result"@, string_json_text(n.result.spec_debug_text()))],
        CXN0102Notify::InitializeUserParam(n) => seq![field_json_text("result"@, string_json_text(n.result.spec_debug_text()))],
        CXN0102Notify::ShutdownReboot(n) => seq![field_json_text("result"@, string_json_text(n.result.spec_debug_text()))],
        CXN0102Notify::GetVideoOutputPosition(n) => seq![field_json_text("result"@, string_json_text(n.result.spec_debug_text())), field_json_text("pan"@, dec_int(n.pan.0 as int)), field_json_text("tilt"@, dec_int(n.tilt.0 as int)), field_json_text("flip"@, string_json_text(n.flip.spec_debug_text()))],
        CXN0102Notify::SetVideoOutputPosition(n) => seq![field_json_text("result"@, dec_int(n.result as int))],
        CXN0102Notify::GetOpticalAlignment(n) => seq![field_json_text("result"@, string_json_text(n.result.spec_debug_text())), field_json_text("alignment"@, alignment_json_text(n.alignment))],
        CXN0102Notify::SetOpticalAlignment(n) => seq![field_json_text("result"@, dec_int(n.result as int))],
        CXN0102Notify::GetBiphase(n) => seq![field_json_text("result"@, string_json_text(n.result.spec_debug_text())), field_json_text("amount"@, dec_int(n.amount as int))],
        CXN0102Notify::SetBiphase(n) => seq![field_json_text("result"@, dec_int(n.result as int))],
        CXN0102Notify::EasyOpticalAdjustmentControl(n) => seq![field_json_text("result"@, string_json_text(n.result.spec_debug_text()))],
        CXN0102Notify::EasyOpticalAdjustmentPlus(n) => seq![field_json_text("result"@, string_json_text(n.result.spec_debug_text()))],
        CXN0102Notify::EasyOpticalAdjustmentMinus(n) => seq![field_json_text("result"@, string_json_text(n.result.spec_debug_text()))],
        CXN0102Notify::EasyOpticalAdjustmentExit(n) => seq![field_json_text("result"@, string_json_text(n.result.spec_debug_text()))],
        CXN0102Notify::EasyBiphaseAdjustmentControl(n) => seq![field_json_text("result"@, string_json_text(n.result.spec_debug_text()))],
        CXN0102Notify::EasyBiphaseAdjustmentPlus(n) => seq![field_json_text("result"@, string_json_text(n.result.spec_debug_text()))],
        CXN0102Notify::EasyBiphaseAdjustmentMinus(n) => seq![field_json_text("result"@, string_json_text(n.result.spec_debug_text()))],
        CXN0102Notify::EasyBiphaseAdjustmentExit(n) => seq![field_json_text("result"@, string_json_text(n.result.spec_debug_text()))],
        CXN0102Notify::GetAllPictureQuality(n) => seq![field_json_text("result"@, string_json_text(n.result.spec_debug_text())), field_json_text("picture_quality"@, picture_quality_json_text(n.picture_quality))],
        CXN0102Notify::SetAllPictureQuality(n) => seq![field_json_text("result"@, dec_int(n.result as int))],
        CXN0102Notify::GetBrightness(n) => seq![field_json_text("result"@, string_json_text(n.result.spec_debug_text())), field_json_text("brightness"@, dec_int(n.brightness as int))],
        CXN0102Notify::SetBrightness(n) => seq![field_json_text("result"@, dec_int(n.result as int))],
        CXN0102Notify::GetContrast(n) => seq![field_json_text("result"@, string_json_text(n.result.spec_debug_text())), field_json_text("contrast"@, dec_int(n.contrast as int))],
        CXN0102Notify::SetContrast(n) => seq![field_json_text("result"@, dec_int(n.result as int))],
        CXN0102Notify::GetHue(n) => seq![field_json_text("result"@, string_json_text(n.result.spec_debug_text())), field_json_text("hue_u"@, dec_int(n.hue_u as int)), field_json_text("hue_v"@, dec_int(n.hue_v as int))],
        CXN0102Notify::SetHue(n) => seq![field_json_text("result"@, dec_int(n.result as int))],
        CXN0102Notify::GetSaturation(n) => seq![field_json_text("result"@, string_json_text(n.result.spec_debug_text())), field_json_text("saturation_u"@, dec_int(n.saturation_u as int)), field_json_text("saturation_v"@, dec_int(n.saturation_v as int))],
        CXN0102Notify::SetSaturation(n) => seq![field_json_text("result"@, dec_int(n.result as int))],
        CXN0102Notify::GetSharpness(n) => seq![field_json_text("result"@, string_json_text(n.result.spec_debug_text())), field_json_text("sharpness"@, dec_int(n.sharpness as int))],
        CXN0102Notify::SetSharpness(n) => seq![field_json_text("result"@, dec_int(n.result as int))],
        CXN0102Notify::UpdateFwImage(n) => seq![field_json_text("result"@, string_json_text(n.result.spec_debug_text()))],
        CXN0102Notify::UpdatePictureData(n) => seq![field_json_text("result"@, string_json_text(n.result.spec_debug_text()))],
        CXN0102Notify::DivisionTransmissionUpdateFwImage(n) => seq![field_json_text("result"@, string_json_text(n.result.spec_debug_text()))],
        CXN0102Notify::DivisionTransmissionUpdatePictureData(n) => seq![field_json_text("result"@, string_json_text(n.result.spec_debug_text()))],
        CXN0102Notify::GetTemperature(n) => seq![field_json_text("result"@, string_json_text(n.result.spec_debug_text())), field_json_text("module_temperature"@, dec_int(n.module_temperature as int)), field_json_text("mute_threshold_temperature"@, dec_int(n.mute_threshold_temperature as int)), field_json_text("system_stop_threshold_temperature"@, dec_int(n.system_stop_threshold_temperature as int))],
        CXN0102Notify::GetTime(n) => seq![field_json_text("result"@, string_json_text(n.result.spec_debug_text())), field_json_text("seconds"@, dec_int(n.seconds as int))],
        CXN0102Notify::GetVersion(n) => seq![field_json_text("result"@, string_json_text(n.result.spec_debug_text())), field_json_text("firmware"@, string_json_text(version_text(n.firmware@))), field_json_text("parameter"@, string_json_text(version_text(n.parameter@))), field_json_text("data"@, string_json_text(version_text(n.data@))), field_json_text("firmware_bytes"@, u8_array_text(n.firmware@)), field_json_text("parameter_bytes"@, u8_array_text(n.parameter@)), field_json_text("data_bytes"@, u8_array_text(n.data@))],
        CXN0102Notify::OutputTestPicture(n) => seq![field_json_text("result"@, dec_int(n.result as int))],
        CXN0102Notify::GetLotNumber(n) => seq![field_json_text("result"@, string_json_text(n.result.spec_debug_text())), field_json_text("lot_numbers"@, u32_array_text(n.lot_numbers@))],
        CXN0102Notify::GetSerialNumber(n) => seq![field_json_text("result"@, string_json_text(n.result.spec_debug_text())), field_json_text("serial_numbers"@, u32_array_text(n.serial_numbers@))],
        CXN0102Notify::Emergency(n) => seq![field_json_text("result"@, string_json_text(n.result.spec_debug_text()))],
        CXN0102Notify::TemperatureEmergencyAndRecovery(n) => seq![field_json_text("result"@, string_json_text(n.result.spec_debug_text()))],
        CXN0102Notify::CommandEmergency(n) => seq![field_json_text("result"@, string_json_text(n.result.spec_debug_text())), field_json_text("reference"@, dec_int(n.reference as int))],
    }
}

/// The JSON object that describes a notify.
pub open spec fn spec_notify_json(notify: CXN0102Notify) -> Seq<char> {
    object_text(spec_notify_type_name(notify), spec_notify_fields(notify))
}

/// The JSON object of a notify with a result and one more field.
fn scalar_json(command: &str, result: Vec<char>, field: &str, value: Vec<char>) -> (text: Vec<
    char,
>)
    ensures
        text@ == object_text(
            command@,
            seq![field_json_text("result"@, result@), field_json_text(field@, value@)],
        ),
{
    let mut fields: Vec<Vec<char>> = Vec::new();
    fields.push(field_json("result", result));
    fields.push(field_json(field, value));
    assert(views(fields@) =~= seq![
        field_json_text("result"@, result@),
        field_json_text(field@, value@),
    ]);
    object_json(command, fields)
}

fn json_boot_completed(n: &BootCompletedNotify) -> (text: Vec<char>)
    ensures
        text@ == spec_notify_json(CXN0102Notify::BootCompleted(*n)),
{
    let mut fields: Vec<Vec<char>> = Vec::new();
    fields.push(field_json("result", string_json(n.result.debug_text().as_slice())));
    assert(views(fields@) =~= seq![field_json_text("result"@, string_json_text(n.result.spec_debug_text()))]);
    object_json("boot-completed", fields)
}

fn json_start_input(n: &CommandResultNotify<0x01>) -> (text: Vec<char>)
    ensures
        text@ == spec_notify_json(CXN0102Notify::StartInput(*n)),
{
    let mut fields: Vec<Vec<char>> = Vec::new();
    fields.push(field_json("result", string_json(n.result.debug_text().as_slice())));
    assert(views(fields@) =~= seq![field_json_text("result"@, string_json_text(n.result.spec_debug_text()))]);
    object_json("start-input", fields)
}

fn json_stop_input(n: &CommandResultNotify<0x02>) -> (text: Vec<char>)
    ensures
        text@ == spec_notify_json(CXN0102Notify::StopInput(*n)),
{
    let mut fields: Vec<Vec<char>> = Vec::new();
    fields.push(field_json("result", string_json(n.result.debug_text().as_slice())));
    assert(views(fields@) =~= seq![field_json_text("result"@, string_json_text(n.result.spec_debug_text()))]);
    object_json("stop-input", fields)
}

fn json_stop_input_specially(n: &CommandResultNotify<0x0C>) -> (text: Vec<char>)
    ensures
        text@ == spec_notify_json(CXN0102Notify::StopInputSpecially(*n)),
{
    let mut fields: Vec<Vec<char>> = Vec::new();
    fields.push(field_json("result", string_json(n.result.debug_text().as_slice())));
    assert(views(fields@) =~= seq![field_json_text("result"@, string_json_text(n.result.spec_debug_text()))]);
    object_json("stop-input-specially", fields)
}

fn json_mute_unmute_change_output(n: &CommandResultNotify<0x03>) -> (text: Vec<char>)
    ensures
        text@ == spec_notify_json(CXN0102Notify::MuteUnmuteChangeOutput(*n)),
{
    let mut fields: Vec<Vec<char>> = Vec::new();
    fields.push(field_json("result", string_json(n.result.debug_text().as_slice())));
    assert(views(fields@) =~= seq![field_json_text("result"@, string_json_text(n.result.spec_debug_text()))]);
    object_json("mute-unmute-change-output", fields)
}

fn json_save_user_param(n: &CommandResultNotify<0x07>) -> (text: Vec<char>)
    ensures
        text@ == spec_notify_json(CXN0102Notify::SaveUserParam(*n)),
{
    let mut fields: Vec<Vec<char>> = Vec::new();
    fields.push(field_json("result", string_json(n.result.debug_text().as_slice())));
    assert(views(fields@) =~= seq![field_json_text("result"@, string_json_text(n.result.spec_debug_text()))]);
    object_json("save-user-param", fields)
}

fn json_initialize_user_param(n: &CommandResultNotify<0x08>) -> (text: Vec<char>)
    ensures
        text@ == spec_notify_json(CXN0102Notify::InitializeUserParam(*n)),
{
    let mut fields: Vec<Vec<char>> = Vec::new();
    fields.push(field_json("result", string_json(n.result.debug_text().as_slice())));
    assert(views(fields@) =~= seq![field_json_text("result"@, string_json_text(n.result.spec_debug_text()))]);
    object_json("initialize-user-param", fields)
}

fn json_shutdown_reboot(n: &CommandResultNotify<0x0B>) -> (text: Vec<char>)
    ensures
        text@ == spec_notify_json(CXN0102Notify::ShutdownReboot(*n)),
{
    let mut fields: Vec<Vec<char>> = Vec::new();
    fields.push(field_json("result", string_json(n.result.debug_text().as_slice())));
    assert(views(fields@) =~= seq![field_json_text("result"@, string_json_text(n.result.spec_debug_text()))]);
    object_json("shutdown-reboot", fields)
}

fn json_get_video_output_position(n: &GetVideoOutputPositionNotify) -> (text: Vec<char>)
    ensures
        text@ == spec_notify_json(CXN0102Notify::GetVideoOutputPosition(*n)),
{
    let mut fields: Vec<Vec<char>> = Vec::new();
    fields.push(field_json("result", string_json(n.result.debug_text().as_slice())));
    fields.push(field_json("pan", dec_text(n.pan.0 as i128)));
    fields.push(field_json("tilt", dec_text(n.tilt.0 as i128)));
    fields.push(field_json("flip", string_json(n.flip.debug_text().as_slice())));
    assert(views(fields@) =~= seq![field_json_text("result"@, string_json_text(n.result.spec_debug_text())), field_json_text("pan"@, dec_int(n.pan.0 as int)), field_json_text("tilt"@, dec_int(n.tilt.0 as int)), field_json_text("flip"@, string_json_text(n.flip.spec_debug_text()))]);
    object_json("get-video-output-position", fields)
}

fn json_set_video_output_position(n: &ErrorResultNotify<0x26>) -> (text: Vec<char>)
    ensures
        text@ == spec_notify_json(CXN0102Notify::SetVideoOutputPosition(*n)),
{
    let mut fields: Vec<Vec<char>> = Vec::new();
    fields.push(field_json("result", dec_text(n.result as i128)));
    assert(views(fields@) =~= seq![field_json_text("result"@, dec_int(n.result as int))]);
    object_json("set-video-output-position", fields)
}

fn json_get_optical_alignment(n: &GetOpticalAlignmentNotify) -> (text: Vec<char>)
    ensures
        text@ == spec_notify_json(CXN0102Notify::GetOpticalAlignment(*n)),
{
    let mut fields: Vec<Vec<char>> = Vec::new();
    fields.push(field_json("result", string_json(n.result.debug_text().as_slice())));
    fields.push(field_json("alignment", alignment_json(&n.alignment)));
    assert(views(fields@) =~= seq![field_json_text("result"@, string_json_text(n.result.spec_debug_text())), field_json_text("alignment"@, alignment_json_text(n.alignment))]);
    object_json("get-optical-alignment", fields)
}

fn json_set_optical_alignment(n: &ErrorResultNotify<0x28>) -> (text: Vec<char>)
    ensures
        text@ == spec_notify_json(CXN0102Notify::SetOpticalAlignment(*n)),
{
    let mut fields: Vec<Vec<char>> = Vec::new();
    fields.push(field_json("result", dec_text(n.result as i128)));
    assert(views(fields@) =~= seq![field_json_text("result"@, dec_int(n.result as int))]);
    object_json("set-optical-alignment", fields)
}

fn json_get_biphase(n: &GetBiphaseNotify) -> (text: Vec<char>)
    ensures
        text@ == spec_notify_json(CXN0102Notify::GetBiphase(*n)),
{
    let mut fields: Vec<Vec<char>> = Vec::new();
    fields.push(field_json("result", string_json(n.result.debug_text().as_slice())));
    fields.push(field_json("amount", dec_text(n.amount as i128)));
    assert(views(fields@) =~= seq![field_json_text("result"@, string_json_text(n.result.spec_debug_text())), field_json_text("amount"@, dec_int(n.amount as int))]);
    object_json("get-biphase", fields)
}

fn json_set_biphase(n: &ErrorResultNotify<0x2A>) -> (text: Vec<char>)
    ensures
        text@ == spec_notify_json(CXN0102Notify::SetBiphase(*n)),
{
    let mut fields: Vec<Vec<char>> = Vec::new();
    fields.push(field_json("result", dec_text(n.result as i128)));
    assert(views(fields@) =~= seq![field_json_text("result"@, dec_int(n.result as int))]);
    object_json("set-biphase", fields)
}

fn json_easy_optical_adjustment_control(n: &AdjustmentControlNotify<0x32>) -> (text: Vec<char>)
    ensures
        text@ == spec_notify_json(CXN0102Notify::EasyOpticalAdjustmentControl(*n)),
{
    let mut fields: Vec<Vec<char>> = Vec::new();
    fields.push(field_json("result", string_json(n.result.debug_text().as_slice())));
    assert(views(fields@) =~= seq![field_json_text("result"@, string_json_text(n.result.spec_debug_text()))]);
    object_json("set-easy-optical-adjustment-control", fields)
}

fn json_easy_optical_adjustment_plus(n: &AdjustmentStepNotify<0x33>) -> (text: Vec<char>)
    ensures
        text@ == spec_notify_json(CXN0102Notify::EasyOpticalAdjustmentPlus(*n)),
{
    let mut fields: Vec<Vec<char>> = Vec::new();
    fields.push(field_json("result", string_json(n.result.debug_text().as_slice())));
    assert(views(fields@) =~= seq![field_json_text("result"@, string_json_text(n.result.spec_debug_text()))]);
    object_json("set-easy-optical-adjustment-plus", fields)
}

fn json_easy_optical_adjustment_minus(n: &AdjustmentStepNotify<0x34>) -> (text: Vec<char>)
    ensures
        text@ == spec_notify_json(CXN0102Notify::EasyOpticalAdjustmentMinus(*n)),
{
    let mut fields: Vec<Vec<char>> = Vec::new();
    fields.push(field_json("result", string_json(n.result.debug_text().as_slice())));
    assert(views(fields@) =~= seq![field_json_text("result"@, string_json_text(n.result.spec_debug_text()))]);
    object_json("set-easy-optical-adjustment-minus", fields)
}

fn json_easy_optical_adjustment_exit(n: &CommandResultNotify<0x35>) -> (text: Vec<char>)
    ensures
        text@ == spec_notify_json(CXN0102Notify::EasyOpticalAdjustmentExit(*n)),
{
    let mut fields: Vec<Vec<char>> = Vec::new();
    fields.push(field_json("result", string_json(n.result.debug_text().as_slice())));
    assert(views(fields@) =~= seq![field_json_text("result"@, string_json_text(n.result.spec_debug_text()))]);
    object_json("set-easy-optical-adjustment-exit", fields)
}

fn json_easy_biphase_adjustment_control(n: &AdjustmentControlNotify<0x36>) -> (text: Vec<char>)
    ensures
        text@ == spec_notify_json(CXN0102Notify::EasyBiphaseAdjustmentControl(*n)),
{
    let mut fields: Vec<Vec<char>> = Vec::new();
    fields.push(field_json("result", string_json(n.result.debug_text().as_slice())));
    assert(views(fields@) =~= seq![field_json_text("result"@, string_json_text(n.result.spec_debug_text()))]);
    object_json("set-easy-biphase-adjustment-control", fields)
}

fn json_easy_biphase_adjustment_plus(n: &AdjustmentStepNotify<0x37>) -> (text: Vec<char>)
    ensures
        text@ == spec_notify_json(CXN0102Notify::EasyBiphaseAdjustmentPlus(*n)),
{
    let mut fields: Vec<Vec<char>> = Vec::new();
    fields.push(field_json("result", string_json(n.result.debug_text().as_slice())));
    assert(views(fields@) =~= seq![field_json_text("result"@, string_json_text(n.result.spec_debug_text()))]);
    object_json("set-easy-biphase-adjustment-plus", fields)
}

fn json_easy_biphase_adjustment_minus(n: &AdjustmentStepNotify<0x38>) -> (text: Vec<char>)
    ensures
        text@ == spec_notify_json(CXN0102Notify::EasyBiphaseAdjustmentMinus(*n)),
{
    let mut fields: Vec<Vec<char>> = Vec::new();
    fields.push(field_json("result", string_json(n.result.debug_text().as_slice())));
    assert(views(fields@) =~= seq![field_json_text("result"@, string_json_text(n.result.spec_debug_text()))]);
    object_json("set-easy-biphase-adjustment-minus", fields)
}

fn json_easy_biphase_adjustment_exit(n: &CommandResultNotify<0x39>) -> (text: Vec<char>)
    ensures
        text@ == spec_notify_json(CXN0102Notify::EasyBiphaseAdjustmentExit(*n)),
{
    let mut fields: Vec<Vec<char>> = Vec::new();
    fields.push(field_json("result", string_json(n.result.debug_text().as_slice())));
    assert(views(fields@) =~= seq![field_json_text("result"@, string_json_text(n.result.spec_debug_text()))]);
    object_json("set-easy-biphase-adjustment-exit", fields)
}

fn json_get_all_picture_quality(n: &GetAllPictureQualityNotify) -> (text: Vec<char>)
    ensures
        text@ == spec_notify_json(CXN0102Notify::GetAllPictureQuality(*n)),
{
    let mut fields: Vec<Vec<char>> = Vec::new();
    fields.push(field_json("result", string_json(n.result.debug_text().as_slice())));
    fields.push(field_json("picture_quality", picture_quality_json(&n.picture_quality)));
    assert(views(fields@) =~= seq![field_json_text("result"@, string_json_text(n.result.spec_debug_text())), field_json_text("picture_quality"@, picture_quality_json_text(n.picture_quality))]);
    object_json("get-all-picture-quality", fields)
}

fn json_set_all_picture_quality(n: &ErrorResultNotify<0x41>) -> (text: Vec<char>)
    ensures
        text@ == spec_notify_json(CXN0102Notify::SetAllPictureQuality(*n)),
{
    let mut fields: Vec<Vec<char>> = Vec::new();
    fields.push(field_json("result", dec_text(n.result as i128)));
    assert(views(fields@) =~= seq![field_json_text("result"@, dec_int(n.result as int))]);
    object_json("set-all-picture-quality", fields)
}

fn json_get_brightness(n: &GetBrightnessNotify) -> (text: Vec<char>)
    ensures
        text@ == spec_notify_json(CXN0102Notify::GetBrightness(*n)),
{
    scalar_json(
        "get-brightness",
        string_json(n.result.debug_text().as_slice()),
        "brightness",
        dec_text(n.brightness as i128),
    )
}

fn json_set_brightness(n: &ErrorResultNotify<0x43>) -> (text: Vec<char>)
    ensures
        text@ == spec_notify_json(CXN0102Notify::SetBrightness(*n)),
{
    let mut fields: Vec<Vec<char>> = Vec::new();
    fields.push(field_json("result", dec_text(n.result as i128)));
    assert(views(fields@) =~= seq![field_json_text("result"@, dec_int(n.result as int))]);
    object_json("set-brightness", fields)
}

fn json_get_contrast(n: &GetContrastNotify) -> (text: Vec<char>)
    ensures
        text@ == spec_notify_json(CXN0102Notify::GetContrast(*n)),
{
    scalar_json(
        "get-contrast",
        string_json(n.result.debug_text().as_slice()),
        "contrast",
        dec_text(n.contrast as i128),
    )
}

fn json_set_contrast(n: &ErrorResultNotify<0x45>) -> (text: Vec<char>)
    ensures
        text@ == spec_notify_json(CXN0102Notify::SetContrast(*n)),
{
    let mut fields: Vec<Vec<char>> = Vec::new();
    fields.push(field_json("result", dec_text(n.result as i128)));
    assert(views(fields@) =~= seq![field_json_text("result"@, dec_int(n.result as int))]);
    object_json("set-contrast", fields)
}

fn json_get_hue(n: &GetHueNotify) -> (text: Vec<char>)
    ensures
        text@ == spec_notify_json(CXN0102Notify::GetHue(*n)),
{
    let mut fields: Vec<Vec<char>> = Vec::new();
    fields.push(field_json("result", string_json(n.result.debug_text().as_slice())));
    fields.push(field_json("hue_u", dec_text(n.hue_u as i128)));
    fields.push(field_json("hue_v", dec_text(n.hue_v as i128)));
    assert(views(fields@) =~= seq![field_json_text("result"@, string_json_text(n.result.spec_debug_text())), field_json_text("hue_u"@, dec_int(n.hue_u as int)), field_json_text("hue_v"@, dec_int(n.hue_v as int))]);
    object_json("get-hue", fields)
}

fn json_set_hue(n: &ErrorResultNotify<0x47>) -> (text: Vec<char>)
    ensures
        text@ == spec_notify_json(CXN0102Notify::SetHue(*n)),
{
    let mut fields: Vec<Vec<char>> = Vec::new();
    fields.push(field_json("result", dec_text(n.result as i128)));
    assert(views(fields@) =~= seq![field_json_text("result"@, dec_int(n.result as int))]);
    object_json("set-hue", fields)
}

fn json_get_saturation(n: &GetSaturationNotify) -> (text: Vec<char>)
    ensures
        text@ == spec_notify_json(CXN0102Notify::GetSaturation(*n)),
{
    let mut fields: Vec<Vec<char>> = Vec::new();
    fields.push(field_json("result", string_json(n.result.debug_text().as_slice())));
    fields.push(field_json("saturation_u", dec_text(n.saturation_u as i128)));
    fields.push(field_json("saturation_v", dec_text(n.saturation_v as i128)));
    assert(views(fields@) =~= seq![field_json_text("result"@, string_json_text(n.result.spec_debug_text())), field_json_text("saturation_u"@, dec_int(n.saturation_u as int)), field_json_text("saturation_v"@, dec_int(n.saturation_v as int))]);
    object_json("get-saturation", fields)
}

fn json_set_saturation(n: &ErrorResultNotify<0x49>) -> (text: Vec<char>)
    ensures
        text@ == spec_notify_json(CXN0102Notify::SetSaturation(*n)),
{
    let mut fields: Vec<Vec<char>> = Vec::new();
    fields.push(field_json("result", dec_text(n.result as i128)));
    assert(views(fields@) =~= seq![field_json_text("result"@, dec_int(n.result as int))]);
    object_json("set-saturation", fields)
}

fn json_get_sharpness(n: &GetSharpnessNotify) -> (text: Vec<char>)
    ensures
        text@ == spec_notify_json(CXN0102Notify::GetSharpness(*n)),
{
    scalar_json(
        "get-sharpness",
        string_json(n.result.debug_text().as_slice()),
        "sharpness",
        dec_text(n.sharpness as i128),
    )
}

fn json_set_sharpness(n: &ErrorResultNotify<0x4F>) -> (text: Vec<char>)
    ensures
        text@ == spec_notify_json(CXN0102Notify::SetSharpness(*n)),
{
    let mut fields: Vec<Vec<char>> = Vec::new();
    fields.push(field_json("result", dec_text(n.result as i128)));
    assert(views(fields@) =~= seq![field_json_text("result"@, dec_int(n.result as int))]);
    object_json("set-sharpness", fields)
}

fn json_update_fw_image(n: &UpdateResultNotify<0x82>) -> (text: Vec<char>)
    ensures
        text@ == spec_notify_json(CXN0102Notify::UpdateFwImage(*n)),
{
    let mut fields: Vec<Vec<char>> = Vec::new();
    fields.push(field_json("result", string_json(n.result.debug_text().as_slice())));
    assert(views(fields@) =~= seq![field_json_text("result"@, string_json_text(n.result.spec_debug_text()))]);
    object_json("update-fw-image", fields)
}

fn json_update_picture_data(n: &UpdateResultNotify<0x84>) -> (text: Vec<char>)
    ensures
        text@ == spec_notify_json(CXN0102Notify::UpdatePictureData(*n)),
{
    let mut fields: Vec<Vec<char>> = Vec::new();
    fields.push(field_json("result", string_json(n.result.debug_text().as_slice())));
    assert(views(fields@) =~= seq![field_json_text("result"@, string_json_text(n.result.spec_debug_text()))]);
    object_json("update-picture-data", fields)
}

fn json_division_transmission_update_fw_image(n: &UpdateResultNotify<0x92>) -> (text: Vec<char>)
    ensures
        text@ == spec_notify_json(CXN0102Notify::DivisionTransmissionUpdateFwImage(*n)),
{
    let mut fields: Vec<Vec<char>> = Vec::new();
    fields.push(field_json("result", string_json(n.result.debug_text().as_slice())));
    assert(views(fields@) =~= seq![field_json_text("result"@, string_json_text(n.result.spec_debug_text()))]);
    object_json("division-transmission-update-fw-image", fields)
}

fn json_division_transmission_update_picture_data(n: &UpdateResultNotify<0x94>) -> (text: Vec<char>)
    ensures
        text@ == spec_notify_json(CXN0102Notify::DivisionTransmissionUpdatePictureData(*n)),
{
    let mut fields: Vec<Vec<char>> = Vec::new();
    fields.push(field_json("result", string_json(n.result.debug_text().as_slice())));
    assert(views(fields@) =~= seq![field_json_text("result"@, string_json_text(n.result.spec_debug_text()))]);
    object_json("division-transmission-update-picture-data", fields)
}

fn json_get_temperature(n: &GetTemperatureNotify) -> (text: Vec<char>)
    ensures
        text@ == spec_notify_json(CXN0102Notify::GetTemperature(*n)),
{
    let mut fields: Vec<Vec<char>> = Vec::new();
    fields.push(field_json("result", string_json(n.result.debug_text().as_slice())));
    fields.push(field_json("module_temperature", dec_text(n.module_temperature as i128)));
    fields.push(field_json("mute_threshold_temperature", dec_text(n.mute_threshold_temperature as i128)));
    fields.push(field_json("system_stop_threshold_temperature", dec_text(n.system_stop_threshold_temperature as i128)));
    assert(views(fields@) =~= seq![field_json_text("result"@, string_json_text(n.result.spec_debug_text())), field_json_text("module_temperature"@, dec_int(n.module_temperature as int)), field_json_text("mute_threshold_temperature"@, dec_int(n.mute_threshold_temperature as int)), field_json_text("system_stop_threshold_temperature"@, dec_int(n.system_stop_threshold_temperature as int))]);
    object_json("get-temperature", fields)
}

fn json_get_time(n: &GetTimeNotify) -> (text: Vec<char>)
    ensures
        text@ == spec_notify_json(CXN0102Notify::GetTime(*n)),
{
    let mut fields: Vec<Vec<char>> = Vec::new();
    fields.push(field_json("result", string_json(n.result.debug_text().as_slice())));
    fields.push(field_json("seconds", dec_text(n.seconds as i128)));
    assert(views(fields@) =~= seq![field_json_text("result"@, string_json_text(n.result.spec_debug_text())), field_json_text("seconds"@, dec_int(n.seconds as int))]);
    object_json("get-time", fields)
}

fn json_get_version(n: &GetVersionNotify) -> (text: Vec<char>)
    ensures
        text@ == spec_notify_json(CXN0102Notify::GetVersion(*n)),
{
    let mut fields: Vec<Vec<char>> = Vec::new();
    fields.push(field_json("result", string_json(n.result.debug_text().as_slice())));
    fields.push(field_json("firmware", string_json(format_version(n.firmware.as_slice()).as_slice())));
    fields.push(field_json("parameter", string_json(format_version(n.parameter.as_slice()).as_slice())));
    fields.push(field_json("data", string_json(format_version(n.data.as_slice()).as_slice())));
    fields.push(field_json("firmware_bytes", u8_array_json(n.firmware.as_slice())));
    fields.push(field_json("parameter_bytes", u8_array_json(n.parameter.as_slice())));
    fields.push(field_json("data_bytes", u8_array_json(n.data.as_slice())));
    assert(views(fields@) =~= seq![field_json_text("result"@, string_json_text(n.result.spec_debug_text())), field_json_text("firmware"@, string_json_text(version_text(n.firmware@))), field_json_text("parameter"@, string_json_text(version_text(n.parameter@))), field_json_text("data"@, string_json_text(version_text(n.data@))), field_json_text("firmware_bytes"@, u8_array_text(n.firmware@)), field_json_text("parameter_bytes"@, u8_array_text(n.parameter@)), field_json_text("data_bytes"@, u8_array_text(n.data@))]);
    object_json("get-version", fields)
}

fn json_output_test_picture(n: &ErrorResultNotify<0xA3>) -> (text: Vec<char>)
    ensures
        text@ == spec_notify_json(CXN0102Notify::OutputTestPicture(*n)),
{
    let mut fields: Vec<Vec<char>> = Vec::new();
    fields.push(field_json("result", dec_text(n.result as i128)));
    assert(views(fields@) =~= seq![field_json_text("result"@, dec_int(n.result as int))]);
    object_json("output-test-picture", fields)
}

fn json_get_lot_number(n: &GetLotNumberNotify) -> (text: Vec<char>)
    ensures
        text@ == spec_notify_json(CXN0102Notify::GetLotNumber(*n)),
{
    let mut fields: Vec<Vec<char>> = Vec::new();
    fields.push(field_json("result", string_json(n.result.debug_text().as_slice())));
    fields.push(field_json("lot_numbers", u32_array_json(n.lot_numbers.as_slice())));
    assert(views(fields@) =~= seq![field_json_text("result"@, string_json_text(n.result.spec_debug_text())), field_json_text("lot_numbers"@, u32_array_text(n.lot_numbers@))]);
    object_json("get-lot-number", fields)
}

fn json_get_serial_number(n: &GetSerialNumberNotify) -> (text: Vec<char>)
    ensures
        text@ == spec_notify_json(CXN0102Notify::GetSerialNumber(*n)),
{
    let mut fields: Vec<Vec<char>> = Vec::new();
    fields.push(field_json("result", string_json(n.result.debug_text().as_slice())));
    fields.push(field_json("serial_numbers", u32_array_json(n.serial_numbers.as_slice())));
    assert(views(fields@) =~= seq![field_json_text("result"@, string_json_text(n.result.spec_debug_text())), field_json_text("serial_numbers"@, u32_array_text(n.serial_numbers@))]);
    object_json("get-serial-number", fields)
}

fn json_emergency(n: &EmergencyNotify) -> (text: Vec<char>)
    ensures
        text@ == spec_notify_json(CXN0102Notify::Emergency(*n)),
{
    let mut fields: Vec<Vec<char>> = Vec::new();
    fields.push(field_json("result", string_json(n.result.debug_text().as_slice())));
    assert(views(fields@) =~= seq![field_json_text("result"@, string_json_text(n.result.spec_debug_text()))]);
    object_json("emergency", fields)
}

fn json_temperature_emergency_and_recovery(n: &TemperatureEmergencyAndRecoveryNotify) -> (text: Vec<char>)
    ensures
        text@ == spec_notify_json(CXN0102Notify::TemperatureEmergencyAndRecovery(*n)),
{
    let mut fields: Vec<Vec<char>> = Vec::new();
    fields.push(field_json("result", string_json(n.result.debug_text().as_slice())));
    assert(views(fields@) =~= seq![field_json_text("result"@, string_json_text(n.result.spec_debug_text()))]);
    object_json("temperature-emergency-and-recovery", fields)
}

fn json_command_emergency(n: &CommandEmergencyNotify) -> (text: Vec<char>)
    ensures
        text@ == spec_notify_json(CXN0102Notify::CommandEmergency(*n)),
{
    let mut fields: Vec<Vec<char>> = Vec::new();
    fields.push(field_json("result", string_json(n.result.debug_text().as_slice())));
    fields.push(field_json("reference", dec_text(n.reference as i128)));
    assert(views(fields@) =~= seq![field_json_text("result"@, string_json_text(n.result.spec_debug_text())), field_json_text("reference"@, dec_int(n.reference as int))]);
    object_json("command-emergency", fields)
}

pub fn notify_json(notify: &CXN0102Notify) -> (text: Vec<char>)
    ensures
        text@ == spec_notify_json(*notify),
{
    match notify {
        CXN0102Notify::BootCompleted(n) => json_boot_completed(n),
        CXN0102Notify::StartInput(n) => json_start_input(n),
        CXN0102Notify::StopInput(n) => json_stop_input(n),
        CXN0102Notify::StopInputSpecially(n) => json_stop_input_specially(n),
        CXN0102Notify::MuteUnmuteChangeOutput(n) => json_mute_unmute_change_output(n),
        CXN0102Notify::SaveUserParam(n) => json_save_user_param(n),
        CXN0102Notify::InitializeUserParam(n) => json_initialize_user_param(n),
        CXN0102Notify::ShutdownReboot(n) => json_shutdown_reboot(n),
        CXN0102Notify::GetVideoOutputPosition(n) => json_get_video_output_position(n),
        CXN0102Notify::SetVideoOutputPosition(n) => json_set_video_output_position(n),
        CXN0102Notify::GetOpticalAlignment(n) => json_get_optical_alignment(n),
        CXN0102Notify::SetOpticalAlignment(n) => json_set_optical_alignment(n),
        CXN0102Notify::GetBiphase(n) => json_get_biphase(n),
        CXN0102Notify::SetBiphase(n) => json_set_biphase(n),
        CXN0102Notify::EasyOpticalAdjustmentControl(n) => json_easy_optical_adjustment_control(n),
        CXN0102Notify::EasyOpticalAdjustmentPlus(n) => json_easy_optical_adjustment_plus(n),
        CXN0102Notify::EasyOpticalAdjustmentMinus(n) => json_easy_optical_adjustment_minus(n),
        CXN0102Notify::EasyOpticalAdjustmentExit(n) => json_easy_optical_adjustment_exit(n),
        CXN0102Notify::EasyBiphaseAdjustmentControl(n) => json_easy_biphase_adjustment_control(n),
        CXN0102Notify::EasyBiphaseAdjustmentPlus(n) => json_easy_biphase_adjustment_plus(n),
        CXN0102Notify::EasyBiphaseAdjustmentMinus(n) => json_easy_biphase_adjustment_minus(n),
        CXN0102Notify::EasyBiphaseAdjustmentExit(n) => json_easy_biphase_adjustment_exit(n),
        CXN0102Notify::GetAllPictureQuality(n) => json_get_all_picture_quality(n),
        CXN0102Notify::SetAllPictureQuality(n) => json_set_all_picture_quality(n),
        CXN0102Notify::GetBrightness(n) => json_get_brightness(n),
        CXN0102Notify::SetBrightness(n) => json_set_brightness(n),
        CXN0102Notify::GetContrast(n) => json_get_contrast(n),
        CXN0102Notify::SetContrast(n) => json_set_contrast(n),
        CXN0102Notify::GetHue(n) => json_get_hue(n),
        CXN0102Notify::SetHue(n) => json_set_hue(n),
        CXN0102Notify::GetSaturation(n) => json_get_saturation(n),
        CXN0102Notify::SetSaturation(n) => json_set_saturation(n),
        CXN0102Notify::GetSharpness(n) => json_get_sharpness(n),
        CXN0102Notify::SetSharpness(n) => json_set_sharpness(n),
        CXN0102Notify::UpdateFwImage(n) => json_update_fw_image(n),
        CXN0102Notify::UpdatePictureData(n) => json_update_picture_data(n),
        CXN0102Notify::DivisionTransmissionUpdateFwImage(n) => json_division_transmission_update_fw_image(n),
        CXN0102Notify::DivisionTransmissionUpdatePictureData(n) => json_division_transmission_update_picture_data(n),
        CXN0102Notify::GetTemperature(n) => json_get_temperature(n),
        CXN0102Notify::GetTime(n) => json_get_time(n),
        CXN0102Notify::GetVersion(n) => json_get_version(n),
        CXN0102Notify::OutputTestPicture(n) => json_output_test_picture(n),
        CXN0102Notify::GetLotNumber(n) => json_get_lot_number(n),
        CXN0102Notify::GetSerialNumber(n) => json_get_serial_number(n),
        CXN0102Notify::Emergency(n) => json_emergency(n),
        CXN0102Notify::TemperatureEmergencyAndRecovery(n) => json_temperature_emergency_and_recovery(n),
        CXN0102Notify::CommandEmergency(n) => json_command_emergency(n),
    }
}

/// A decoded notify answers the command whose id is the first byte of its frame.
pub proof fn lemma_decoded_notify_command_id(bytes: Seq<u8>)
    ensures
        CXN0102Notify::spec_from_bytes(bytes) matches Ok(n) ==> bytes.len() >= 1
            && spec_notify_command_id(n) == bytes[0],
{
}

proof fn lemma_name_id_boot_completed()
    ensures
        spec_notify_command_id_from_name("boot-completed"@) == 0x00,
{
    reveal_strlit("boot-completed");
}

proof fn lemma_name_id_start_input()
    ensures
        spec_notify_command_id_from_name("start-input"@) == 0x01,
{
    reveal_strlit("start-input");
    reveal_strlit("boot-completed");
    assert("start-input"@.len() != "boot-completed"@.len());
}

proof fn lemma_name_id_stop_input()
    ensures
        spec_notify_command_id_from_name("stop-input"@) == 0x02,
{
    reveal_strlit("stop-input");
    reveal_strlit("boot-completed");
    assert("stop-input"@.len() != "boot-completed"@.len());
    reveal_strlit("start-input");
    assert("stop-input"@.len() != "start-input"@.len());
}

proof fn lemma_name_id_mute_unmute_change_output()
    ensures
        spec_notify_command_id_from_name("mute-unmute-change-output"@) == 0x03,
{
    reveal_strlit("mute-unmute-change-output");
    reveal_strlit("boot-completed");
    assert("mute-unmute-change-output"@.len() != "boot-completed"@.len());
    reveal_strlit("start-input");
    assert("mute-unmute-change-output"@.len() != "start-input"@.len());
    reveal_strlit("stop-input");
    assert("mute-unmute-change-output"@.len() != "stop-input"@.len());
}

proof fn lemma_name_id_save_user_param()
    ensures
        spec_notify_command_id_from_name("save-user-param"@) == 0x07,
{
    reveal_strlit("save-user-param");
    reveal_strlit("boot-completed");
    assert("save-user-param"@.len() != "boot-completed"@.len());
    reveal_strlit("start-input");
    assert("save-user-param"@.len() != "start-input"@.len());
    reveal_strlit("stop-input");
    assert("save-user-param"@.len() != "stop-input"@.len());
    reveal_strlit("mute-unmute-change-output");
    assert("save-user-param"@.len() != "mute-unmute-change-output"@.len());
}

proof fn lemma_name_id_initialize_user_param()
    ensures
        spec_notify_command_id_from_name("initialize-user-param"@) == 0x08,
{
    reveal_strlit("initialize-user-param");
    reveal_strlit("boot-completed");
    assert("initialize-user-param"@.len() != "boot-completed"@.len());
    reveal_strlit("start-input");
    assert("initialize-user-param"@.len() != "start-input"@.len());
    reveal_strlit("stop-input");
    assert("initialize-user-param"@.len() != "stop-input"@.len());
    reveal_strlit("mute-unmute-change-output");
    assert("initialize-user-param"@.len() != "mute-unmute-change-output"@.len());
    reveal_strlit("save-user-param");
    assert("initialize-user-param"@.len() != "save-user-param"@.len());
}

proof fn lemma_name_id_shutdown_reboot()
    ensures
        spec_notify_command_id_from_name("shutdown-reboot"@) == 0x0B,
{
    reveal_strlit("shutdown-reboot");
    reveal_strlit("boot-completed");
    assert("shutdown-reboot"@.len() != "boot-completed"@.len());
    reveal_strlit("start-input");
    assert("shutdown-reboot"@.len() != "start-input"@.len());
    reveal_strlit("stop-input");
    assert("shutdown-reboot"@.len() != "stop-input"@.len());
    reveal_strlit("mute-unmute-change-output");
    assert("shutdown-reboot"@.len() != "mute-unmute-change-output"@.len());
    reveal_strlit("save-user-param");
    assert("shutdown-reboot"@[1] != "save-user-param"@[1]);
    reveal_strlit("initialize-user-param");
    assert("shutdown-reboot"@.len() != "initialize-user-param"@.len());
}

proof fn lemma_name_id_stop_input_specially()
    ensures
        spec_notify_command_id_from_name("stop-input-specially"@) == 0x0C,
{
    reveal_strlit("stop-input-specially");
    reveal_strlit("boot-completed");
    assert("stop-input-specially"@.len() != "boot-completed"@.len());
    reveal_strlit("start-input");
    assert("stop-input-specially"@.len() != "start-input"@.len());
    reveal_strlit("stop-input");
    assert("stop-input-specially"@.len() != "stop-input"@.len());
    reveal_strlit("mute-unmute-change-output");
    assert("stop-input-specially"@.len() != "mute-unmute-change-output"@.len());
    reveal_strlit("save-user-param");
    assert("stop-input-specially"@.len() != "save-user-param"@.len());
    reveal_strlit("initialize-user-param");
    assert("stop-input-specially"@.len() != "initialize-user-param"@.len());
    reveal_strlit("shutdown-reboot");
    assert("stop-input-specially"@.len() != "shutdown-reboot"@.len());
}

proof fn lemma_name_id_emergency()
    ensures
        spec_notify_command_id_from_name("emergency"@) == 0x10,
{
    reveal_strlit("emergency");
    reveal_strlit("boot-completed");
    assert("emergency"@.len() != "boot-completed"@.len());
    reveal_strlit("start-input");
    assert("emergency"@.len() != "start-input"@.len());
    reveal_strlit("stop-input");
    assert("emergency"@.len() != "stop-input"@.len());
    reveal_strlit("mute-unmute-change-output");
    assert("emergency"@.len() != "mute-unmute-change-output"@.len());
    reveal_strlit("save-user-param");
    assert("emergency"@.len() != "save-user-param"@.len());
    reveal_strlit("initialize-user-param");
    assert("emergency"@.len() != "initialize-user-param"@.len());
    reveal_strlit("shutdown-reboot");
    assert("emergency"@.len() != "shutdown-reboot"@.len());
    reveal_strlit("stop-input-specially");
    assert("emergency"@.len() != "stop-input-specially"@.len());
}

proof fn lemma_name_id_temperature_emergency_and_recovery()
    ensures
        spec_notify_command_id_from_name("temperature-emergency-and-recovery"@) == 0x11,
{
    reveal_strlit("temperature-emergency-and-recovery");
    reveal_strlit("boot-completed");
    assert("temperature-emergency-and-recovery"@.len() != "boot-completed"@.len());
    reveal_strlit("start-input");
    assert("temperature-emergency-and-recovery"@.len() != "start-input"@.len());
    reveal_strlit("stop-input");
    assert("temperature-emergency-and-recovery"@.len() != "stop-input"@.len());
    reveal_strlit("mute-unmute-change-output");
    assert("temperature-emergency-and-recovery"@.len() != "mute-unmute-change-output"@.len());
    reveal_strlit("save-user-param");
    assert("temperature-emergency-and-recovery"@.len() != "save-user-param"@.len());
    reveal_strlit("initialize-user-param");
    assert("temperature-emergency-and-recovery"@.len() != "initialize-user-param"@.len());
    reveal_strlit("shutdown-reboot");
    assert("temperature-emergency-and-recovery"@.len() != "shutdown-reboot"@.len());
    reveal_strlit("stop-input-specially");
    assert("temperature-emergency-and-recovery"@.len() != "stop-input-specially"@.len());
    reveal_strlit("emergency");
    assert("temperature-emergency-and-recovery"@.len() != "emergency"@.len());
}

proof fn lemma_name_id_command_emergency()
    ensures
        spec_notify_command_id_from_name("command-emergency"@) == 0x12,
{
    reveal_strlit("command-emergency");
    reveal_strlit("boot-completed");
    assert("command-emergency"@.len() != "boot-completed"@.len());
    reveal_strlit("start-input");
    assert("command-emergency"@.len() != "start-input"@.len());
    reveal_strlit("stop-input");
    assert("command-emergency"@.len() != "stop-input"@.len());
    reveal_strlit("mute-unmute-change-output");
    assert("command-emergency"@.len() != "mute-unmute-change-output"@.len());
    reveal_strlit("save-user-param");
    assert("command-emergency"@.len() != "save-user-param"@.len());
    reveal_strlit("initialize-user-param");
    assert("command-emergency"@.len() != "initialize-user-param"@.len());
    reveal_strlit("shutdown-reboot");
    assert("command-emergency"@.len() != "shutdown-reboot"@.len());
    reveal_strlit("stop-input-specially");
    assert("command-emergency"@.len() != "stop-input-specially"@.len());
    reveal_strlit("emergency");
    assert("command-emergency"@.len() != "emergency"@.len());
    reveal_strlit("temperature-emergency-and-recovery");
    assert("command-emergency"@.len() != "temperature-emergency-and-recovery"@.len());
}

proof fn lemma_name_id_get_video_output_position()
    ensures
        spec_notify_command_id_from_name("get-video-output-position"@) == 0x25,
{
    reveal_strlit("get-video-output-position");
    reveal_strlit("boot-completed");
    assert("get-video-output-position"@.len() != "boot-completed"@.len());
    reveal_strlit("start-input");
    assert("get-video-output-position"@.len() != "start-input"@.len());
    reveal_strlit("stop-input");
    assert("get-video-output-position"@.len() != "stop-input"@.len());
    reveal_strlit("mute-unmute-change-output");
    assert("get-video-output-position"@[0] != "mute-unmute-change-output"@[0]);
    reveal_strlit("save-user-param");
    assert("get-video-output-position"@.len() != "save-user-param"@.len());
    reveal_strlit("initialize-user-param");
    assert("get-video-output-position"@.len() != "initialize-user-param"@.len());
    reveal_strlit("shutdown-reboot");
    assert("get-video-output-position"@.len() != "shutdown-reboot"@.len());
    reveal_strlit("stop-input-specially");
    assert("get-video-output-position"@.len() != "stop-input-specially"@.len());
    reveal_strlit("emergency");
    assert("get-video-output-position"@.len() != "emergency"@.len());
    reveal_strlit("temperature-emergency-and-recovery");
    assert("get-video-output-position"@.len() != "temperature-emergency-and-recovery"@.len());
    reveal_strlit("command-emergency");
    assert("get-video-output-position"@.len() != "command-emergency"@.len());
}

proof fn lemma_name_id_set_video_output_position()
    ensures
        spec_notify_command_id_from_name("set-video-output-position"@) == 0x26,
{
    reveal_strlit("set-video-output-position");
    reveal_strlit("boot-completed");
    assert("set-video-output-position"@.len() != "boot-completed"@.len());
    reveal_strlit("start-input");
    assert("set-video-output-position"@.len() != "start-input"@.len());
    reveal_strlit("stop-input");
    assert("set-video-output-position"@.len() != "stop-input"@.len());
    reveal_strlit("mute-unmute-change-output");
    assert("set-video-output-position"@[0] != "mute-unmute-change-output"@[0]);
    reveal_strlit("save-user-param");
    assert("set-video-output-position"@.len() != "save-user-param"@.len());
    reveal_strlit("initialize-user-param");
    assert("set-video-output-position"@.len() != "initialize-user-param"@.len());
    reveal_strlit("shutdown-reboot");
    assert("set-video-output-position"@.len() != "shutdown-reboot"@.len());
    reveal_strlit("stop-input-specially");
    assert("set-video-output-position"@.len() != "stop-input-specially"@.len());
    reveal_strlit("emergency");
    assert("set-video-output-position"@.len() != "emergency"@.len());
    reveal_strlit("temperature-emergency-and-recovery");
    assert("set-video-output-position"@.len() != "temperature-emergency-and-recovery"@.len());
    reveal_strlit("command-emergency");
    assert("set-video-output-position"@.len() != "command-emergency"@.len());
    reveal_strlit("get-video-output-position");
    assert("set-video-output-position"@[0] != "get-video-output-position"@[0]);
}

proof fn lemma_name_id_get_optical_alignment()
    ensures
        spec_notify_command_id_from_name("get-optical-alignment"@) == 0x27,
{
    reveal_strlit("get-optical-alignment");
    reveal_strlit("boot-completed");
    assert("get-optical-alignment"@.len() != "boot-completed"@.len());
    reveal_strlit("start-input");
    assert("get-optical-alignment"@.len() != "start-input"@.len());
    reveal_strlit("stop-input");
    assert("get-optical-alignment"@.len() != "stop-input"@.len());
    reveal_strlit("mute-unmute-change-output");
    assert("get-optical-alignment"@.len() != "mute-unmute-change-output"@.len());
    reveal_strlit("save-user-param");
    assert("get-optical-alignment"@.len() != "save-user-param"@.len());
    reveal_strlit("initialize-user-param");
    assert("get-optical-alignment"@[0] != "initialize-user-param"@[0]);
    reveal_strlit("shutdown-reboot");
    assert("get-optical-alignment"@.len() != "shutdown-reboot"@.len());
    reveal_strlit("stop-input-specially");
    assert("get-optical-alignment"@.len() != "stop-input-specially"@.len());
    reveal_strlit("emergency");
    assert("get-optical-alignment"@.len() != "emergency"@.len());
    reveal_strlit("temperature-emergency-and-recovery");
    assert("get-optical-alignment"@.len() != "temperature-emergency-and-recovery"@.len());
    reveal_strlit("command-emergency");
    assert("get-optical-alignment"@.len() != "command-emergency"@.len());
    reveal_strlit("get-video-output-position");
    assert("get-optical-alignment"@.len() != "get-video-output-position"@.len());
    reveal_strlit("set-video-output-position");
    assert("get-optical-alignment"@.len() != "set-video-output-position"@.len());
}

proof fn lemma_name_id_set_optical_alignment()
    ensures
        spec_notify_command_id_from_name("set-optical-alignment"@) == 0x28,
{
    reveal_strlit("set-optical-alignment");
    reveal_strlit("boot-completed");
    assert("set-optical-alignment"@.len() != "boot-completed"@.len());
    reveal_strlit("start-input");
    assert("set-optical-alignment"@.len() != "start-input"@.len());
    reveal_strlit("stop-input");
    assert("set-optical-alignment"@.len() != "stop-input"@.len());
    reveal_strlit("mute-unmute-change-output");
    assert("set-optical-alignment"@.len() != "mute-unmute-change-output"@.len());
    reveal_strlit("save-user-param");
    assert("set-optical-alignment"@.len() != "save-user-param"@.len());
    reveal_strlit("initialize-user-param");
    assert("set-optical-alignment"@[0] != "initialize-user-param"@[0]);
    reveal_strlit("shutdown-reboot");
    assert("set-optical-alignment"@.len() != "shutdown-reboot"@.len());
    reveal_strlit("stop-input-specially");
    assert("set-optical-alignment"@.len() != "stop-input-specially"@.len());
    reveal_strlit("emergency");
    assert("set-optical-alignment"@.len() != "emergency"@.len());
    reveal_strlit("temperature-emergency-and-recovery");
    assert("set-optical-alignment"@.len() != "temperature-emergency-and-recovery"@.len());
    reveal_strlit("command-emergency");
    assert("set-optical-alignment"@.len() != "command-emergency"@.len());
    reveal_strlit("get-video-output-position");
    assert("set-optical-alignment"@.len() != "get-video-output-position"@.len());
    reveal_strlit("set-video-output-position");
    assert("set-optical-alignment"@.len() != "set-video-output-position"@.len());
    reveal_strlit("get-optical-alignment");
    assert("set-optical-alignment"@[0] != "get-optical-alignment"@[0]);
}

proof fn lemma_name_id_get_biphase()
    ensures
        spec_notify_command_id_from_name("get-biphase"@) == 0x29,
{
    reveal_strlit("get-biphase");
    reveal_strlit("boot-completed");
    assert("get-biphase"@.len() != "boot-completed"@.len());
    reveal_strlit("start-input");
    assert("get-biphase"@[0] != "start-input"@[0]);
    reveal_strlit("stop-input");
    assert("get-biphase"@.len() != "stop-input"@.len());
    reveal_strlit("mute-unmute-change-output");
    assert("get-biphase"@.len() != "mute-unmute-change-output"@.len());
    reveal_strlit("save-user-param");
    assert("get-biphase"@.len() != "save-user-param"@.len());
    reveal_strlit("initialize-user-param");
    assert("get-biphase"@.len() != "initialize-user-param"@.len());
    reveal_strlit("shutdown-reboot");
    assert("get-biphase"@.len() != "shutdown-reboot"@.len());
    reveal_strlit("stop-input-specially");
    assert("get-biphase"@.len() != "stop-input-specially"@.len());
    reveal_strlit("emergency");
    assert("get-biphase"@.len() != "emergency"@.len());
    reveal_strlit("temperature-emergency-and-recovery");
    assert("get-biphase"@.len() != "temperature-emergency-and-recovery"@.len());
    reveal_strlit("command-emergency");
    assert("get-biphase"@.len() != "command-emergency"@.len());
    reveal_strlit("get-video-output-position");
    assert("get-biphase"@.len() != "get-video-output-position"@.len());
    reveal_strlit("set-video-output-position");
    assert("get-biphase"@.len() != "set-video-output-position"@.len());
    reveal_strlit("get-optical-alignment");
    assert("get-biphase"@.len() != "get-optical-alignment"@.len());
    reveal_strlit("set-optical-alignment");
    assert("get-biphase"@.len() != "set-optical-alignment"@.len());
}

proof fn lemma_name_id_set_biphase()
    ensures
        spec_notify_command_id_from_name("set-biphase"@) == 0x2A,
{
    reveal_strlit("set-biphase");
    reveal_strlit("boot-completed");
    assert("set-biphase"@.len() != "boot-completed"@.len());
    reveal_strlit("start-input");
    assert("set-biphase"@[1] != "start-input"@[1]);
    reveal_strlit("stop-input");
    assert("set-biphase"@.len() != "stop-input"@.len());
    reveal_strlit("mute-unmute-change-output");
    assert("set-biphase"@.len() != "mute-unmute-change-output"@.len());
    reveal_strlit("save-user-param");
    assert("set-biphase"@.len() != "save-user-param"@.len());
    reveal_strlit("initialize-user-param");
    assert("set-biphase"@.len() != "initialize-user-param"@.len());
    reveal_strlit("shutdown-reboot");
    assert("set-biphase"@.len() != "shutdown-reboot"@.len());
    reveal_strlit("stop-input-specially");
    assert("set-biphase"@.len() != "stop-input-specially"@.len());
    reveal_strlit("emergency");
    assert("set-biphase"@.len() != "emergency"@.len());
    reveal_strlit("temperature-emergency-and-recovery");
    assert("set-biphase"@.len() != "temperature-emergency-and-recovery"@.len());
    reveal_strlit("command-emergency");
    assert("set-biphase"@.len() != "command-emergency"@.len());
    reveal_strlit("get-video-output-position");
    assert("set-biphase"@.len() != "get-video-output-position"@.len());
    reveal_strlit("set-video-output-position");
    assert("set-biphase"@.len() != "set-video-output-position"@.len());
    reveal_strlit("get-optical-alignment");
    assert("set-biphase"@.len() != "get-optical-alignment"@.len());
    reveal_strlit("set-optical-alignment");
    assert("set-biphase"@.len() != "set-optical-alignment"@.len());
    reveal_strlit("get-biphase");
    assert("set-biphase"@[0] != "get-biphase"@[0]);
}

proof fn lemma_name_id_set_easy_optical_adjustment_control()
    ensures
        spec_notify_command_id_from_name("set-easy-optical-adjustment-control"@) == 0x32,
{
    reveal_strlit("set-easy-optical-adjustment-control");
    reveal_strlit("boot-completed");
    assert("set-easy-optical-adjustment-control"@.len() != "boot-completed"@.len());
    reveal_strlit("start-input");
    assert("set-easy-optical-adjustment-control"@.len() != "start-input"@.len());
    reveal_strlit("stop-input");
    assert("set-easy-optical-adjustment-control"@.len() != "stop-input"@.len());
    reveal_strlit("mute-unmute-change-output");
    assert("set-easy-optical-adjustment-control"@.len() != "mute-unmute-change-output"@.len());
    reveal_strlit("save-user-param");
    assert("set-easy-optical-adjustment-control"@.len() != "save-user-param"@.len());
    reveal_strlit("initialize-user-param");
    assert("set-easy-optical-adjustment-control"@.len() != "initialize-user-param"@.len());
    reveal_strlit("shutdown-reboot");
    assert("set-easy-optical-adjustment-control"@.len() != "shutdown-reboot"@.len());
    reveal_strlit("stop-input-specially");
    assert("set-easy-optical-adjustment-control"@.len() != "stop-input-specially"@.len());
    reveal_strlit("emergency");
    assert("set-easy-optical-adjustment-control"@.len() != "emergency"@.len());
    reveal_strlit("temperature-emergency-and-recovery");
    assert("set-easy-optical-adjustment-control"@.len() != "temperature-emergency-and-recovery"@.len());
    reveal_strlit("command-emergency");
    assert("set-easy-optical-adjustment-control"@.len() != "command-emergency"@.len());
    reveal_strlit("get-video-output-position");
    assert("set-easy-optical-adjustment-control"@.len() != "get-video-output-position"@.len());
    reveal_strlit("set-video-output-position");
    assert("set-easy-optical-adjustment-control"@.len() != "set-video-output-position"@.len());
    reveal_strlit("get-optical-alignment");
    assert("set-easy-optical-adjustment-control"@.len() != "get-optical-alignment"@.len());
    reveal_strlit("set-optical-alignment");
    assert("set-easy-optical-adjustment-control"@.len() != "set-optical-alignment"@.len());
    reveal_strlit("get-biphase");
    assert("set-easy-optical-adjustment-control"@.len() != "get-biphase"@.len());
    reveal_strlit("set-biphase");
    assert("set-easy-optical-adjustment-control"@.len() != "set-biphase"@.len());
}

proof fn lemma_name_id_set_easy_optical_adjustment_plus()
    ensures
        spec_notify_command_id_from_name("set-easy-optical-adjustment-plus"@) == 0x33,
{
    reveal_strlit("set-easy-optical-adjustment-plus");
    reveal_strlit("boot-completed");
    assert("set-easy-optical-adjustment-plus"@.len() != "boot-completed"@.len());
    reveal_strlit("start-input");
    assert("set-easy-optical-adjustment-plus"@.len() != "start-input"@.len());
    reveal_strlit("stop-input");
    assert("set-easy-optical-adjustment-plus"@.len() != "stop-input"@.len());
    reveal_strlit("mute-unmute-change-output");
    assert("set-easy-optical-adjustment-plus"@.len() != "mute-unmute-change-output"@.len());
    reveal_strlit("save-user-param");
    assert("set-easy-optical-adjustment-plus"@.len() != "save-user-param"@.len());
    reveal_strlit("initialize-user-param");
    assert("set-easy-optical-adjustment-plus"@.len() != "initialize-user-param"@.len());
    reveal_strlit("shutdown-reboot");
    assert("set-easy-optical-adjustment-plus"@.len() != "shutdown-reboot"@.len());
    reveal_strlit("stop-input-specially");
    assert("set-easy-optical-adjustment-plus"@.len() != "stop-input-specially"@.len());
    reveal_strlit("emergency");
    assert("set-easy-optical-adjustment-plus"@.len() != "emergency"@.len());
    reveal_strlit("temperature-emergency-and-recovery");
    assert("set-easy-optical-adjustment-plus"@.len() != "temperature-emergency-and-recovery"@.len());
    reveal_strlit("command-emergency");
    assert("set-easy-optical-adjustment-plus"@.len() != "command-emergency"@.len());
    reveal_strlit("get-video-output-position");
    assert("set-easy-optical-adjustment-plus"@.len() != "get-video-output-position"@.len());
    reveal_strlit("set-video-output-position");
    assert("set-easy-optical-adjustment-plus"@.len() != "set-video-output-position"@.len());
    reveal_strlit("get-optical-alignment");
    assert("set-easy-optical-adjustment-plus"@.len() != "get-optical-alignment"@.len());
    reveal_strlit("set-optical-alignment");
    assert("set-easy-optical-adjustment-plus"@.len() != "set-optical-alignment"@.len());
    reveal_strlit("get-biphase");
    assert("set-easy-optical-adjustment-plus"@.len() != "get-biphase"@.len());
    reveal_strlit("set-biphase");
    assert("set-easy-optical-adjustment-plus"@.len() != "set-biphase"@.len());
    reveal_strlit("set-easy-optical-adjustment-control");
    assert("set-easy-optical-adjustment-plus"@.len() != "set-easy-optical-adjustment-control"@.len());
}

proof fn lemma_name_id_set_easy_optical_adjustment_minus()
    ensures
        spec_notify_command_id_from_name("set-easy-optical-adjustment-minus"@) == 0x34,
{
    reveal_strlit("set-easy-optical-adjustment-minus");
    reveal_strlit("boot-completed");
    assert("set-easy-optical-adjustment-minus"@.len() != "boot-completed"@.len());
    reveal_strlit("start-input");
    assert("set-easy-optical-adjustment-minus"@.len() != "start-input"@.len());
    reveal_strlit("stop-input");
    assert("set-easy-optical-adjustment-minus"@.len() != "stop-input"@.len());
    reveal_strlit("mute-unmute-change-output");
    assert("set-easy-optical-adjustment-minus"@.len() != "mute-unmute-change-output"@.len());
    reveal_strlit("save-user-param");
    assert("set-easy-optical-adjustment-minus"@.len() != "save-user-param"@.len());
    reveal_strlit("initialize-user-param");
    assert("set-easy-optical-adjustment-minus"@.len() != "initialize-user-param"@.len());
    reveal_strlit("shutdown-reboot");
    assert("set-easy-optical-adjustment-minus"@.len() != "shutdown-reboot"@.len());
    reveal_strlit("stop-input-specially");
    assert("set-easy-optical-adjustment-minus"@.len() != "stop-input-specially"@.len());
    reveal_strlit("emergency");
    assert("set-easy-optical-adjustment-minus"@.len() != "emergency"@.len());
    reveal_strlit("temperature-emergency-and-recovery");
    assert("set-easy-optical-adjustment-minus"@.len() != "temperature-emergency-and-recovery"@.len());
    reveal_strlit("command-emergency");
    assert("set-easy-optical-adjustment-minus"@.len() != "command-emergency"@.len());
    reveal_strlit("get-video-output-position");
    assert("set-easy-optical-adjustment-minus"@.len() != "get-video-output-position"@.len());
    reveal_strlit("set-video-output-position");
    assert("set-easy-optical-adjustment-minus"@.len() != "set-video-output-position"@.len());
    reveal_strlit("get-optical-alignment");
    assert("set-easy-optical-adjustment-minus"@.len() != "get-optical-alignment"@.len());
    reveal_strlit("set-optical-alignment");
    assert("set-easy-optical-adjustment-minus"@.len() != "set-optical-alignment"@.len());
    reveal_strlit("get-biphase");
    assert("set-easy-optical-adjustment-minus"@.len() != "get-biphase"@.len());
    reveal_strlit("set-biphase");
    assert("set-easy-optical-adjustment-minus"@.len() != "set-biphase"@.len());
    reveal_strlit("set-easy-optical-adjustment-control");
    assert("set-easy-optical-adjustment-minus"@.len() != "set-easy-optical-adjustment-control"@.len());
    reveal_strlit("set-easy-optical-adjustment-plus");
    assert("set-easy-optical-adjustment-minus"@.len() != "set-easy-optical-adjustment-plus"@.len());
}

proof fn lemma_name_id_set_easy_optical_adjustment_exit()
    ensures
        spec_notify_command_id_from_name("set-easy-optical-adjustment-exit"@) == 0x35,
{
    reveal_strlit("set-easy-optical-adjustment-exit");
    reveal_strlit("boot-completed");
    assert("set-easy-optical-adjustment-exit"@.len() != "boot-completed"@.len());
    reveal_strlit("start-input");
    assert("set-easy-optical-adjustment-exit"@.len() != "start-input"@.len());
    reveal_strlit("stop-input");
    assert("set-easy-optical-adjustment-exit"@.len() != "stop-input"@.len());
    reveal_strlit("mute-unmute-change-output");
    assert("set-easy-optical-adjustment-exit"@.len() != "mute-unmute-change-output"@.len());
    reveal_strlit("save-user-param");
    assert("set-easy-optical-adjustment-exit"@.len() != "save-user-param"@.len());
    reveal_strlit("initialize-user-param");
    assert("set-easy-optical-adjustment-exit"@.len() != "initialize-user-param"@.len());
    reveal_strlit("shutdown-reboot");
    assert("set-easy-optical-adjustment-exit"@.len() != "shutdown-reboot"@.len());
    reveal_strlit("stop-input-specially");
    assert("set-easy-optical-adjustment-exit"@.len() != "stop-input-specially"@.len());
    reveal_strlit("emergency");
    assert("set-easy-optical-adjustment-exit"@.len() != "emergency"@.len());
    reveal_strlit("temperature-emergency-and-recovery");
    assert("set-easy-optical-adjustment-exit"@.len() != "temperature-emergency-and-recovery"@.len());
    reveal_strlit("command-emergency");
    assert("set-easy-optical-adjustment-exit"@.len() != "command-emergency"@.len());
    reveal_strlit("get-video-output-position");
    assert("set-easy-optical-adjustment-exit"@.len() != "get-video-output-position"@.len());
    reveal_strlit("set-video-output-position");
    assert("set-easy-optical-adjustment-exit"@.len() != "set-video-output-position"@.len());
    reveal_strlit("get-optical-alignment");
    assert("set-easy-optical-adjustment-exit"@.len() != "get-optical-alignment"@.len());
    reveal_strlit("set-optical-alignment");
    assert("set-easy-optical-adjustment-exit"@.len() != "set-optical-alignment"@.len());
    reveal_strlit("get-biphase");
    assert("set-easy-optical-adjustment-exit"@.len() != "get-biphase"@.len());
    reveal_strlit("set-biphase");
    assert("set-easy-optical-adjustment-exit"@.len() != "set-biphase"@.len());
    reveal_strlit("set-easy-optical-adjustment-control");
    assert("set-easy-optical-adjustment-exit"@.len() != "set-easy-optical-adjustment-control"@.len());
    reveal_strlit("set-easy-optical-adjustment-plus");
    assert("set-easy-optical-adjustment-exit"@[28] != "set-easy-optical-adjustment-plus"@[28]);
    reveal_strlit("set-easy-optical-adjustment-minus");
    assert("set-easy-optical-adjustment-exit"@.len() != "set-easy-optical-adjustment-minus"@.len());
}

proof fn lemma_name_id_set_easy_biphase_adjustment_control()
    ensures
        spec_notify_command_id_from_name("set-easy-biphase-adjustment-control"@) == 0x36,
{
    reveal_strlit("set-easy-biphase-adjustment-control");
    reveal_strlit("boot-completed");
    assert("set-easy-biphase-adjustment-control"@.len() != "boot-completed"@.len());
    reveal_strlit("start-input");
    assert("set-easy-biphase-adjustment-control"@.len() != "start-input"@.len());
    reveal_strlit("stop-input");
    assert("set-easy-biphase-adjustment-control"@.len() != "stop-input"@.len());
    reveal_strlit("mute-unmute-change-output");
    assert("set-easy-biphase-adjustment-control"@.len() != "mute-unmute-change-output"@.len());
    reveal_strlit("save-user-param");
    assert("set-easy-biphase-adjustment-control"@.len() != "save-user-param"@.len());
    reveal_strlit("initialize-user-param");
    assert("set-easy-biphase-adjustment-control"@.len() != "initialize-user-param"@.len());
    reveal_strlit("shutdown-reboot");
    assert("set-easy-biphase-adjustment-control"@.len() != "shutdown-reboot"@.len());
    reveal_strlit("stop-input-specially");
    assert("set-easy-biphase-adjustment-control"@.len() != "stop-input-specially"@.len());
    reveal_strlit("emergency");
    assert("set-easy-biphase-adjustment-control"@.len() != "emergency"@.len());
    reveal_strlit("temperature-emergency-and-recovery");
    assert("set-easy-biphase-adjustment-control"@.len() != "temperature-emergency-and-recovery"@.len());
    reveal_strlit("command-emergency");
    assert("set-easy-biphase-adjustment-control"@.len() != "command-emergency"@.len());
    reveal_strlit("get-video-output-position");
    assert("set-easy-biphase-adjustment-control"@.len() != "get-video-output-position"@.len());
    reveal_strlit("set-video-output-position");
    assert("set-easy-biphase-adjustment-control"@.len() != "set-video-output-position"@.len());
    reveal_strlit("get-optical-alignment");
    assert("set-easy-biphase-adjustment-control"@.len() != "get-optical-alignment"@.len());
    reveal_strlit("set-optical-alignment");
    assert("set-easy-biphase-adjustment-control"@.len() != "set-optical-alignment"@.len());
    reveal_strlit("get-biphase");
    assert("set-easy-biphase-adjustment-control"@.len() != "get-biphase"@.len());
    reveal_strlit("set-biphase");
    assert("set-easy-biphase-adjustment-control"@.len() != "set-biphase"@.len());
    reveal_strlit("set-easy-optical-adjustment-control");
    assert("set-easy-biphase-adjustment-control"@[9] != "set-easy-optical-adjustment-control"@[9]);
    reveal_strlit("set-easy-optical-adjustment-plus");
    assert("set-easy-biphase-adjustment-control"@.len() != "set-easy-optical-adjustment-plus"@.len());
    reveal_strlit("set-easy-optical-adjustment-minus");
    assert("set-easy-biphase-adjustment-control"@.len() != "set-easy-optical-adjustment-minus"@.len());
    reveal_strlit("set-easy-optical-adjustment-exit");
    assert("set-easy-biphase-adjustment-control"@.len() != "set-easy-optical-adjustment-exit"@.len());
}

proof fn lemma_name_id_set_easy_biphase_adjustment_plus()
    ensures
        spec_notify_command_id_from_name("set-easy-biphase-adjustment-plus"@) == 0x37,
{
    reveal_strlit("set-easy-biphase-adjustment-plus");
    reveal_strlit("boot-completed");
    assert("set-easy-biphase-adjustment-plus"@.len() != "boot-completed"@.len());
    reveal_strlit("start-input");
    assert("set-easy-biphase-adjustment-plus"@.len() != "start-input"@.len());
    reveal_strlit("stop-input");
    assert("set-easy-biphase-adjustment-plus"@.len() != "stop-input"@.len());
    reveal_strlit("mute-unmute-change-output");
    assert("set-easy-biphase-adjustment-plus"@.len() != "mute-unmute-change-output"@.len());
    reveal_strlit("save-user-param");
    assert("set-easy-biphase-adjustment-plus"@.len() != "save-user-param"@.len());
    reveal_strlit("initialize-user-param");
    assert("set-easy-biphase-adjustment-plus"@.len() != "initialize-user-param"@.len());
    reveal_strlit("shutdown-reboot");
    assert("set-easy-biphase-adjustment-plus"@.len() != "shutdown-reboot"@.len());
    reveal_strlit("stop-input-specially");
    assert("set-easy-biphase-adjustment-plus"@.len() != "stop-input-specially"@.len());
    reveal_strlit("emergency");
    assert("set-easy-biphase-adjustment-plus"@.len() != "emergency"@.len());
    reveal_strlit("temperature-emergency-and-recovery");
    assert("set-easy-biphase-adjustment-plus"@.len() != "temperature-emergency-and-recovery"@.len());
    reveal_strlit("command-emergency");
    assert("set-easy-biphase-adjustment-plus"@.len() != "command-emergency"@.len());
    reveal_strlit("get-video-output-position");
    assert("set-easy-biphase-adjustment-plus"@.len() != "get-video-output-position"@.len());
    reveal_strlit("set-video-output-position");
    assert("set-easy-biphase-adjustment-plus"@.len() != "set-video-output-position"@.len());
    reveal_strlit("get-optical-alignment");
    assert("set-easy-biphase-adjustment-plus"@.len() != "get-optical-alignment"@.len());
    reveal_strlit("set-optical-alignment");
    assert("set-easy-biphase-adjustment-plus"@.len() != "set-optical-alignment"@.len());
    reveal_strlit("get-biphase");
    assert("set-easy-biphase-adjustment-plus"@.len() != "get-biphase"@.len());
    reveal_strlit("set-biphase");
    assert("set-easy-biphase-adjustment-plus"@.len() != "set-biphase"@.len());
    reveal_strlit("set-easy-optical-adjustment-control");
    assert("set-easy-biphase-adjustment-plus"@.len() != "set-easy-optical-adjustment-control"@.len());
    reveal_strlit("set-easy-optical-adjustment-plus");
    assert("set-easy-biphase-adjustment-plus"@[9] != "set-easy-optical-adjustment-plus"@[9]);
    reveal_strlit("set-easy-optical-adjustment-minus");
    assert("set-easy-biphase-adjustment-plus"@.len() != "set-easy-optical-adjustment-minus"@.len());
    reveal_strlit("set-easy-optical-adjustment-exit");
    assert("set-easy-biphase-adjustment-plus"@[9] != "set-easy-optical-adjustment-exit"@[9]);
    reveal_strlit("set-easy-biphase-adjustment-control");
    assert("set-easy-biphase-adjustment-plus"@.len() != "set-easy-biphase-adjustment-control"@.len());
}

proof fn lemma_name_id_set_easy_biphase_adjustment_minus()
    ensures
        spec_notify_command_id_from_name("set-easy-biphase-adjustment-minus"@) == 0x38,
{
    reveal_strlit("set-easy-biphase-adjustment-minus");
    reveal_strlit("boot-completed");
    assert("set-easy-biphase-adjustment-minus"@.len() != "boot-completed"@.len());
    reveal_strlit("start-input");
    assert("set-easy-biphase-adjustment-minus"@.len() != "start-input"@.len());
    reveal_strlit("stop-input");
    assert("set-easy-biphase-adjustment-minus"@.len() != "stop-input"@.len());
    reveal_strlit("mute-unmute-change-output");
    assert("set-easy-biphase-adjustment-minus"@.len() != "mute-unmute-change-output"@.len());
    reveal_strlit("save-user-param");
    assert("set-easy-biphase-adjustment-minus"@.len() != "save-user-param"@.len());
    reveal_strlit("initialize-user-param");
    assert("set-easy-biphase-adjustment-minus"@.len() != "initialize-user-param"@.len());
    reveal_strlit("shutdown-reboot");
    assert("set-easy-biphase-adjustment-minus"@.len() != "shutdown-reboot"@.len());
    reveal_strlit("stop-input-specially");
    assert("set-easy-biphase-adjustment-minus"@.len() != "stop-input-specially"@.len());
    reveal_strlit("emergency");
    assert("set-easy-biphase-adjustment-minus"@.len() != "emergency"@.len());
    reveal_strlit("temperature-emergency-and-recovery");
    assert("set-easy-biphase-adjustment-minus"@.len() != "temperature-emergency-and-recovery"@.len());
    reveal_strlit("command-emergency");
    assert("set-easy-biphase-adjustment-minus"@.len() != "command-emergency"@.len());
    reveal_strlit("get-video-output-position");
    assert("set-easy-biphase-adjustment-minus"@.len() != "get-video-output-position"@.len());
    reveal_strlit("set-video-output-position");
    assert("set-easy-biphase-adjustment-minus"@.len() != "set-video-output-position"@.len());
    reveal_strlit("get-optical-alignment");
    assert("set-easy-biphase-adjustment-minus"@.len() != "get-optical-alignment"@.len());
    reveal_strlit("set-optical-alignment");
    assert("set-easy-biphase-adjustment-minus"@.len() != "set-optical-alignment"@.len());
    reveal_strlit("get-biphase");
    assert("set-easy-biphase-adjustment-minus"@.len() != "get-biphase"@.len());
    reveal_strlit("set-biphase");
    assert("set-easy-biphase-adjustment-minus"@.len() != "set-biphase"@.len());
    reveal_strlit("set-easy-optical-adjustment-control");
    assert("set-easy-biphase-adjustment-minus"@.len() != "set-easy-optical-adjustment-control"@.len());
    reveal_strlit("set-easy-optical-adjustment-plus");
    assert("set-easy-biphase-adjustment-minus"@.len() != "set-easy-optical-adjustment-plus"@.len());
    reveal_strlit("set-easy-optical-adjustment-minus");
    assert("set-easy-biphase-adjustment-minus"@[9] != "set-easy-optical-adjustment-minus"@[9]);
    reveal_strlit("set-easy-optical-adjustment-exit");
    assert("set-easy-biphase-adjustment-minus"@.len() != "set-easy-optical-adjustment-exit"@.len());
    reveal_strlit("set-easy-biphase-adjustment-control");
    assert("set-easy-biphase-adjustment-minus"@.len() != "set-easy-biphase-adjustment-control"@.len());
    reveal_strlit("set-easy-biphase-adjustment-plus");
    assert("set-easy-biphase-adjustment-minus"@.len() != "set-easy-biphase-adjustment-plus"@.len());
}

proof fn lemma_name_id_set_easy_biphase_adjustment_exit()
    ensures
        spec_notify_command_id_from_name("set-easy-biphase-adjustment-exit"@) == 0x39,
{
    reveal_strlit("set-easy-biphase-adjustment-exit");
    reveal_strlit("boot-completed");
    assert("set-easy-biphase-adjustment-exit"@.len() != "boot-completed"@.len());
    reveal_strlit("start-input");
    assert("set-easy-biphase-adjustment-exit"@.len() != "start-input"@.len());
    reveal_strlit("stop-input");
    assert("set-easy-biphase-adjustment-exit"@.len() != "stop-input"@.len());
    reveal_strlit("mute-unmute-change-output");
    assert("set-easy-biphase-adjustment-exit"@.len() != "mute-unmute-change-output"@.len());
    reveal_strlit("save-user-param");
    assert("set-easy-biphase-adjustment-exit"@.len() != "save-user-param"@.len());
    reveal_strlit("initialize-user-param");
    assert("set-easy-biphase-adjustment-exit"@.len() != "initialize-user-param"@.len());
    reveal_strlit("shutdown-reboot");
    assert("set-easy-biphase-adjustment-exit"@.len() != "shutdown-reboot"@.len());
    reveal_strlit("stop-input-specially");
    assert("set-easy-biphase-adjustment-exit"@.len() != "stop-input-specially"@.len());
    reveal_strlit("emergency");
    assert("set-easy-biphase-adjustment-exit"@.len() != "emergency"@.len());
    reveal_strlit("temperature-emergency-and-recovery");
    assert("set-easy-biphase-adjustment-exit"@.len() != "temperature-emergency-and-recovery"@.len());
    reveal_strlit("command-emergency");
    assert("set-easy-biphase-adjustment-exit"@.len() != "command-emergency"@.len());
    reveal_strlit("get-video-output-position");
    assert("set-easy-biphase-adjustment-exit"@.len() != "get-video-output-position"@.len());
    reveal_strlit("set-video-output-position");
    assert("set-easy-biphase-adjustment-exit"@.len() != "set-video-output-position"@.len());
    reveal_strlit("get-optical-alignment");
    assert("set-easy-biphase-adjustment-exit"@.len() != "get-optical-alignment"@.len());
    reveal_strlit("set-optical-alignment");
    assert("set-easy-biphase-adjustment-exit"@.len() != "set-optical-alignment"@.len());
    reveal_strlit("get-biphase");
    assert("set-easy-biphase-adjustment-exit"@.len() != "get-biphase"@.len());
    reveal_strlit("set-biphase");
    assert("set-easy-biphase-adjustment-exit"@.len() != "set-biphase"@.len());
    reveal_strlit("set-easy-optical-adjustment-control");
    assert("set-easy-biphase-adjustment-exit"@.len() != "set-easy-optical-adjustment-control"@.len());
    reveal_strlit("set-easy-optical-adjustment-plus");
    assert("set-easy-biphase-adjustment-exit"@[9] != "set-easy-optical-adjustment-plus"@[9]);
    reveal_strlit("set-easy-optical-adjustment-minus");
    assert("set-easy-biphase-adjustment-exit"@.len() != "set-easy-optical-adjustment-minus"@.len());
    reveal_strlit("set-easy-optical-adjustment-exit");
    assert("set-easy-biphase-adjustment-exit"@[9] != "set-easy-optical-adjustment-exit"@[9]);
    reveal_strlit("set-easy-biphase-adjustment-control");
    assert("set-easy-biphase-adjustment-exit"@.len() != "set-easy-biphase-adjustment-control"@.len());
    reveal_strlit("set-easy-biphase-adjustment-plus");
    assert("set-easy-biphase-adjustment-exit"@[28] != "set-easy-biphase-adjustment-plus"@[28]);
    reveal_strlit("set-easy-biphase-adjustment-minus");
    assert("set-easy-biphase-adjustment-exit"@.len() != "set-easy-biphase-adjustment-minus"@.len());
}

proof fn lemma_name_id_get_all_picture_quality()
    ensures
        spec_notify_command_id_from_name("get-all-picture-quality"@) == 0x40,
{
    reveal_strlit("get-all-picture-quality");
    reveal_strlit("boot-completed");
    assert("get-all-picture-quality"@.len() != "boot-completed"@.len());
    reveal_strlit("start-input");
    assert("get-all-picture-quality"@.len() != "start-input"@.len());
    reveal_strlit("stop-input");
    assert("get-all-picture-quality"@.len() != "stop-input"@.len());
    reveal_strlit("mute-unmute-change-output");
    assert("get-all-picture-quality"@.len() != "mute-unmute-change-output"@.len());
    reveal_strlit("save-user-param");
    assert("get-all-picture-quality"@.len() != "save-user-param"@.len());
    reveal_strlit("initialize-user-param");
    assert("get-all-picture-quality"@.len() != "initialize-user-param"@.len());
    reveal_strlit("shutdown-reboot");
    assert("get-all-picture-quality"@.len() != "shutdown-reboot"@.len());
    reveal_strlit("stop-input-specially");
    assert("get-all-picture-quality"@.len() != "stop-input-specially"@.len());
    reveal_strlit("emergency");
    assert("get-all-picture-quality"@.len() != "emergency"@.len());
    reveal_strlit("temperature-emergency-and-recovery");
    assert("get-all-picture-quality"@.len() != "temperature-emergency-and-recovery"@.len());
    reveal_strlit("command-emergency");
    assert("get-all-picture-quality"@.len() != "command-emergency"@.len());
    reveal_strlit("get-video-output-position");
    assert("get-all-picture-quality"@.len() != "get-video-output-position"@.len());
    reveal_strlit("set-video-output-position");
    assert("get-all-picture-quality"@.len() != "set-video-output-position"@.len());
    reveal_strlit("get-optical-alignment");
    assert("get-all-picture-quality"@.len() != "get-optical-alignment"@.len());
    reveal_strlit("set-optical-alignment");
    assert("get-all-picture-quality"@.len() != "set-optical-alignment"@.len());
    reveal_strlit("get-biphase");
    assert("get-all-picture-quality"@.len() != "get-biphase"@.len());
    reveal_strlit("set-biphase");
    assert("get-all-picture-quality"@.len() != "set-biphase"@.len());
    reveal_strlit("set-easy-optical-adjustment-control");
    assert("get-all-picture-quality"@.len() != "set-easy-optical-adjustment-control"@.len());
    reveal_strlit("set-easy-optical-adjustment-plus");
    assert("get-all-picture-quality"@.len() != "set-easy-optical-adjustment-plus"@.len());
    reveal_strlit("set-easy-optical-adjustment-minus");
    assert("get-all-picture-quality"@.len() != "set-easy-optical-adjustment-minus"@.len());
    reveal_strlit("set-easy-optical-adjustment-exit");
    assert("get-all-picture-quality"@.len() != "set-easy-optical-adjustment-exit"@.len());
    reveal_strlit("set-easy-biphase-adjustment-control");
    assert("get-all-picture-quality"@.len() != "set-easy-biphase-adjustment-control"@.len());
    reveal_strlit("set-easy-biphase-adjustment-plus");
    assert("get-all-picture-quality"@.len() != "set-easy-biphase-adjustment-plus"@.len());
    reveal_strlit("set-easy-biphase-adjustment-minus");
    assert("get-all-picture-quality"@.len() != "set-easy-biphase-adjustment-minus"@.len());
    reveal_strlit("set-easy-biphase-adjustment-exit");
    assert("get-all-picture-quality"@.len() != "set-easy-biphase-adjustment-exit"@.len());
}

proof fn lemma_name_id_set_all_picture_quality()
    ensures
        spec_notify_command_id_from_name("set-all-picture-quality"@) == 0x41,
{
    reveal_strlit("set-all-picture-quality");
    reveal_strlit("boot-completed");
    assert("set-all-picture-quality"@.len() != "boot-completed"@.len());
    reveal_strlit("start-input");
    assert("set-all-picture-quality"@.len() != "start-input"@.len());
    reveal_strlit("stop-input");
    assert("set-all-picture-quality"@.len() != "stop-input"@.len());
    reveal_strlit("mute-unmute-change-output");
    assert("set-all-picture-quality"@.len() != "mute-unmute-change-output"@.len());
    reveal_strlit("save-user-param");
    assert("set-all-picture-quality"@.len() != "save-user-param"@.len());
    reveal_strlit("initialize-user-param");
    assert("set-all-picture-quality"@.len() != "initialize-user-param"@.len());
    reveal_strlit("shutdown-reboot");
    assert("set-all-picture-quality"@.len() != "shutdown-reboot"@.len());
    reveal_strlit("stop-input-specially");
    assert("set-all-picture-quality"@.len() != "stop-input-specially"@.len());
    reveal_strlit("emergency");
    assert("set-all-picture-quality"@.len() != "emergency"@.len());
    reveal_strlit("temperature-emergency-and-recovery");
    assert("set-all-picture-quality"@.len() != "temperature-emergency-and-recovery"@.len());
    reveal_strlit("command-emergency");
    assert("set-all-picture-quality"@.len() != "command-emergency"@.len());
    reveal_strlit("get-video-output-position");
    assert("set-all-picture-quality"@.len() != "get-video-output-position"@.len());
    reveal_strlit("set-video-output-position");
    assert("set-all-picture-quality"@.len() != "set-video-output-position"@.len());
    reveal_strlit("get-optical-alignment");
    assert("set-all-picture-quality"@.len() != "get-optical-alignment"@.len());
    reveal_strlit("set-optical-alignment");
    assert("set-all-picture-quality"@.len() != "set-optical-alignment"@.len());
    reveal_strlit("get-biphase");
    assert("set-all-picture-quality"@.len() != "get-biphase"@.len());
    reveal_strlit("set-biphase");
    assert("set-all-picture-quality"@.len() != "set-biphase"@.len());
    reveal_strlit("set-easy-optical-adjustment-control");
    assert("set-all-picture-quality"@.len() != "set-easy-optical-adjustment-control"@.len());
    reveal_strlit("set-easy-optical-adjustment-plus");
    assert("set-all-picture-quality"@.len() != "set-easy-optical-adjustment-plus"@.len());
    reveal_strlit("set-easy-optical-adjustment-minus");
    assert("set-all-picture-quality"@.len() != "set-easy-optical-adjustment-minus"@.len());
    reveal_strlit("set-easy-optical-adjustment-exit");
    assert("set-all-picture-quality"@.len() != "set-easy-optical-adjustment-exit"@.len());
    reveal_strlit("set-easy-biphase-adjustment-control");
    assert("set-all-picture-quality"@.len() != "set-easy-biphase-adjustment-control"@.len());
    reveal_strlit("set-easy-biphase-adjustment-plus");
    assert("set-all-picture-quality"@.len() != "set-easy-biphase-adjustment-plus"@.len());
    reveal_strlit("set-easy-biphase-adjustment-minus");
    assert("set-all-picture-quality"@.len() != "set-easy-biphase-adjustment-minus"@.len());
    reveal_strlit("set-easy-biphase-adjustment-exit");
    assert("set-all-picture-quality"@.len() != "set-easy-biphase-adjustment-exit"@.len());
    reveal_strlit("get-all-picture-quality");
    assert("set-all-picture-quality"@[0] != "get-all-picture-quality"@[0]);
}

proof fn lemma_name_id_get_brightness()
    ensures
        spec_notify_command_id_from_name("get-brightness"@) == 0x42,
{
    reveal_strlit("get-brightness");
    reveal_strlit("boot-completed");
    assert("get-brightness"@[0] != "boot-completed"@[0]);
    reveal_strlit("start-input");
    assert("get-brightness"@.len() != "start-input"@.len());
    reveal_strlit("stop-input");
    assert("get-brightness"@.len() != "stop-input"@.len());
    reveal_strlit("mute-unmute-change-output");
    assert("get-brightness"@.len() != "mute-unmute-change-output"@.len());
    reveal_strlit("save-user-param");
    assert("get-brightness"@.len() != "save-user-param"@.len());
    reveal_strlit("initialize-user-param");
    assert("get-brightness"@.len() != "initialize-user-param"@.len());
    reveal_strlit("shutdown-reboot");
    assert("get-brightness"@.len() != "shutdown-reboot"@.len());
    reveal_strlit("stop-input-specially");
    assert("get-brightness"@.len() != "stop-input-specially"@.len());
    reveal_strlit("emergency");
    assert("get-brightness"@.len() != "emergency"@.len());
    reveal_strlit("temperature-emergency-and-recovery");
    assert("get-brightness"@.len() != "temperature-emergency-and-recovery"@.len());
    reveal_strlit("command-emergency");
    assert("get-brightness"@.len() != "command-emergency"@.len());
    reveal_strlit("get-video-output-position");
    assert("get-brightness"@.len() != "get-video-output-position"@.len());
    reveal_strlit("set-video-output-position");
    assert("get-brightness"@.len() != "set-video-output-position"@.len());
    reveal_strlit("get-optical-alignment");
    assert("get-brightness"@.len() != "get-optical-alignment"@.len());
    reveal_strlit("set-optical-alignment");
    assert("get-brightness"@.len() != "set-optical-alignment"@.len());
    reveal_strlit("get-biphase");
    assert("get-brightness"@.len() != "get-biphase"@.len());
    reveal_strlit("set-biphase");
    assert("get-brightness"@.len() != "set-biphase"@.len());
    reveal_strlit("set-easy-optical-adjustment-control");
    assert("get-brightness"@.len() != "set-easy-optical-adjustment-control"@.len());
    reveal_strlit("set-easy-optical-adjustment-plus");
    assert("get-brightness"@.len() != "set-easy-optical-adjustment-plus"@.len());
    reveal_strlit("set-easy-optical-adjustment-minus");
    assert("get-brightness"@.len() != "set-easy-optical-adjustment-minus"@.len());
    reveal_strlit("set-easy-optical-adjustment-exit");
    assert("get-brightness"@.len() != "set-easy-optical-adjustment-exit"@.len());
    reveal_strlit("set-easy-biphase-adjustment-control");
    assert("get-brightness"@.len() != "set-easy-biphase-adjustment-control"@.len());
    reveal_strlit("set-easy-biphase-adjustment-plus");
    assert("get-brightness"@.len() != "set-easy-biphase-adjustment-plus"@.len());
    reveal_strlit("set-easy-biphase-adjustment-minus");
    assert("get-brightness"@.len() != "set-easy-biphase-adjustment-minus"@.len());
    reveal_strlit("set-easy-biphase-adjustment-exit");
    assert("get-brightness"@.len() != "set-easy-biphase-adjustment-exit"@.len());
    reveal_strlit("get-all-picture-quality");
    assert("get-brightness"@.len() != "get-all-picture-quality"@.len());
    reveal_strlit("set-all-picture-quality");
    assert("get-brightness"@.len() != "set-all-picture-quality"@.len());
}

proof fn lemma_name_id_set_brightness()
    ensures
        spec_notify_command_id_from_name("set-brightness"@) == 0x43,
{
    reveal_strlit("set-brightness");
    reveal_strlit("boot-completed");
    assert("set-brightness"@[0] != "boot-completed"@[0]);
    reveal_strlit("start-input");
    assert("set-brightness"@.len() != "start-input"@.len());
    reveal_strlit("stop-input");
    assert("set-brightness"@.len() != "stop-input"@.len());
    reveal_strlit("mute-unmute-change-output");
    assert("set-brightness"@.len() != "mute-unmute-change-output"@.len());
    reveal_strlit("save-user-param");
    assert("set-brightness"@.len() != "save-user-param"@.len());
    reveal_strlit("initialize-user-param");
    assert("set-brightness"@.len() != "initialize-user-param"@.len());
    reveal_strlit("shutdown-reboot");
    assert("set-brightness"@.len() != "shutdown-reboot"@.len());
    reveal_strlit("stop-input-specially");
    assert("set-brightness"@.len() != "stop-input-specially"@.len());
    reveal_strlit("emergency");
    assert("set-brightness"@.len() != "emergency"@.len());
    reveal_strlit("temperature-emergency-and-recovery");
    assert("set-brightness"@.len() != "temperature-emergency-and-recovery"@.len());
    reveal_strlit("command-emergency");
    assert("set-brightness"@.len() != "command-emergency"@.len());
    reveal_strlit("get-video-output-position");
    assert("set-brightness"@.len() != "get-video-output-position"@.len());
    reveal_strlit("set-video-output-position");
    assert("set-brightness"@.len() != "set-video-output-position"@.len());
    reveal_strlit("get-optical-alignment");
    assert("set-brightness"@.len() != "get-optical-alignment"@.len());
    reveal_strlit("set-optical-alignment");
    assert("set-brightness"@.len() != "set-optical-alignment"@.len());
    reveal_strlit("get-biphase");
    assert("set-brightness"@.len() != "get-biphase"@.len());
    reveal_strlit("set-biphase");
    assert("set-brightness"@.len() != "set-biphase"@.len());
    reveal_strlit("set-easy-optical-adjustment-control");
    assert("set-brightness"@.len() != "set-easy-optical-adjustment-control"@.len());
    reveal_strlit("set-easy-optical-adjustment-plus");
    assert("set-brightness"@.len() != "set-easy-optical-adjustment-plus"@.len());
    reveal_strlit("set-easy-optical-adjustment-minus");
    assert("set-brightness"@.len() != "set-easy-optical-adjustment-minus"@.len());
    reveal_strlit("set-easy-optical-adjustment-exit");
    assert("set-brightness"@.len() != "set-easy-optical-adjustment-exit"@.len());
    reveal_strlit("set-easy-biphase-adjustment-control");
    assert("set-brightness"@.len() != "set-easy-biphase-adjustment-control"@.len());
    reveal_strlit("set-easy-biphase-adjustment-plus");
    assert("set-brightness"@.len() != "set-easy-biphase-adjustment-plus"@.len());
    reveal_strlit("set-easy-biphase-adjustment-minus");
    assert("set-brightness"@.len() != "set-easy-biphase-adjustment-minus"@.len());
    reveal_strlit("set-easy-biphase-adjustment-exit");
    assert("set-brightness"@.len() != "set-easy-biphase-adjustment-exit"@.len());
    reveal_strlit("get-all-picture-quality");
    assert("set-brightness"@.len() != "get-all-picture-quality"@.len());
    reveal_strlit("set-all-picture-quality");
    assert("set-brightness"@.len() != "set-all-picture-quality"@.len());
    reveal_strlit("get-brightness");
    assert("set-brightness"@[0] != "get-brightness"@[0]);
}

proof fn lemma_name_id_get_contrast()
    ensures
        spec_notify_command_id_from_name("get-contrast"@) == 0x44,
{
    reveal_strlit("get-contrast");
    reveal_strlit("boot-completed");
    assert("get-contrast"@.len() != "boot-completed"@.len());
    reveal_strlit("start-input");
    assert("get-contrast"@.len() != "start-input"@.len());
    reveal_strlit("stop-input");
    assert("get-contrast"@.len() != "stop-input"@.len());
    reveal_strlit("mute-unmute-change-output");
    assert("get-contrast"@.len() != "mute-unmute-change-output"@.len());
    reveal_strlit("save-user-param");
    assert("get-contrast"@.len() != "save-user-param"@.len());
    reveal_strlit("initialize-user-param");
    assert("get-contrast"@.len() != "initialize-user-param"@.len());
    reveal_strlit("shutdown-reboot");
    assert("get-contrast"@.len() != "shutdown-reboot"@.len());
    reveal_strlit("stop-input-specially");
    assert("get-contrast"@.len() != "stop-input-specially"@.len());
    reveal_strlit("emergency");
    assert("get-contrast"@.len() != "emergency"@.len());
    reveal_strlit("temperature-emergency-and-recovery");
    assert("get-contrast"@.len() != "temperature-emergency-and-recovery"@.len());
    reveal_strlit("command-emergency");
    assert("get-contrast"@.len() != "command-emergency"@.len());
    reveal_strlit("get-video-output-position");
    assert("get-contrast"@.len() != "get-video-output-position"@.len());
    reveal_strlit("set-video-output-position");
    assert("get-contrast"@.len() != "set-video-output-position"@.len());
    reveal_strlit("get-optical-alignment");
    assert("get-contrast"@.len() != "get-optical-alignment"@.len());
    reveal_strlit("set-optical-alignment");
    assert("get-contrast"@.len() != "set-optical-alignment"@.len());
    reveal_strlit("get-biphase");
    assert("get-contrast"@.len() != "get-biphase"@.len());
    reveal_strlit("set-biphase");
    assert("get-contrast"@.len() != "set-biphase"@.len());
    reveal_strlit("set-easy-optical-adjustment-control");
    assert("get-contrast"@.len() != "set-easy-optical-adjustment-control"@.len());
    reveal_strlit("set-easy-optical-adjustment-plus");
    assert("get-contrast"@.len() != "set-easy-optical-adjustment-plus"@.len());
    reveal_strlit("set-easy-optical-adjustment-minus");
    assert("get-contrast"@.len() != "set-easy-optical-adjustment-minus"@.len());
    reveal_strlit("set-easy-optical-adjustment-exit");
    assert("get-contrast"@.len() != "set-easy-optical-adjustment-exit"@.len());
    reveal_strlit("set-easy-biphase-adjustment-control");
    assert("get-contrast"@.len() != "set-easy-biphase-adjustment-control"@.len());
    reveal_strlit("set-easy-biphase-adjustment-plus");
    assert("get-contrast"@.len() != "set-easy-biphase-adjustment-plus"@.len());
    reveal_strlit("set-easy-biphase-adjustment-minus");
    assert("get-contrast"@.len() != "set-easy-biphase-adjustment-minus"@.len());
    reveal_strlit("set-easy-biphase-adjustment-exit");
    assert("get-contrast"@.len() != "set-easy-biphase-adjustment-exit"@.len());
    reveal_strlit("get-all-picture-quality");
    assert("get-contrast"@.len() != "get-all-picture-quality"@.len());
    reveal_strlit("set-all-picture-quality");
    assert("get-contrast"@.len() != "set-all-picture-quality"@.len());
    reveal_strlit("get-brightness");
    assert("get-contrast"@.len() != "get-brightness"@.len());
    reveal_strlit("set-brightness");
    assert("get-contrast"@.len() != "set-brightness"@.len());
}

proof fn lemma_name_id_set_contrast()
    ensures
        spec_notify_command_id_from_name("set-contrast"@) == 0x45,
{
    reveal_strlit("set-contrast");
    reveal_strlit("boot-completed");
    assert("set-contrast"@.len() != "boot-completed"@.len());
    reveal_strlit("start-input");
    assert("set-contrast"@.len() != "start-input"@.len());
    reveal_strlit("stop-input");
    assert("set-contrast"@.len() != "stop-input"@.len());
    reveal_strlit("mute-unmute-change-output");
    assert("set-contrast"@.len() != "mute-unmute-change-output"@.len());
    reveal_strlit("save-user-param");
    assert("set-contrast"@.len() != "save-user-param"@.len());
    reveal_strlit("initialize-user-param");
    assert("set-contrast"@.len() != "initialize-user-param"@.len());
    reveal_strlit("shutdown-reboot");
    assert("set-contrast"@.len() != "shutdown-reboot"@.len());
    reveal_strlit("stop-input-specially");
    assert("set-contrast"@.len() != "stop-input-specially"@.len());
    reveal_strlit("emergency");
    assert("set-contrast"@.len() != "emergency"@.len());
    reveal_strlit("temperature-emergency-and-recovery");
    assert("set-contrast"@.len() != "temperature-emergency-and-recovery"@.len());
    reveal_strlit("command-emergency");
    assert("set-contrast"@.len() != "command-emergency"@.len());
    reveal_strlit("get-video-output-position");
    assert("set-contrast"@.len() != "get-video-output-position"@.len());
    reveal_strlit("set-video-output-position");
    assert("set-contrast"@.len() != "set-video-output-position"@.len());
    reveal_strlit("get-optical-alignment");
    assert("set-contrast"@.len() != "get-optical-alignment"@.len());
    reveal_strlit("set-optical-alignment");
    assert("set-contrast"@.len() != "set-optical-alignment"@.len());
    reveal_strlit("get-biphase");
    assert("set-contrast"@.len() != "get-biphase"@.len());
    reveal_strlit("set-biphase");
    assert("set-contrast"@.len() != "set-biphase"@.len());
    reveal_strlit("set-easy-optical-adjustment-control");
    assert("set-contrast"@.len() != "set-easy-optical-adjustment-control"@.len());
    reveal_strlit("set-easy-optical-adjustment-plus");
    assert("set-contrast"@.len() != "set-easy-optical-adjustment-plus"@.len());
    reveal_strlit("set-easy-optical-adjustment-minus");
    assert("set-contrast"@.len() != "set-easy-optical-adjustment-minus"@.len());
    reveal_strlit("set-easy-optical-adjustment-exit");
    assert("set-contrast"@.len() != "set-easy-optical-adjustment-exit"@.len());
    reveal_strlit("set-easy-biphase-adjustment-control");
    assert("set-contrast"@.len() != "set-easy-biphase-adjustment-control"@.len());
    reveal_strlit("set-easy-biphase-adjustment-plus");
    assert("set-contrast"@.len() != "set-easy-biphase-adjustment-plus"@.len());
    reveal_strlit("set-easy-biphase-adjustment-minus");
    assert("set-contrast"@.len() != "set-easy-biphase-adjustment-minus"@.len());
    reveal_strlit("set-easy-biphase-adjustment-exit");
    assert("set-contrast"@.len() != "set-easy-biphase-adjustment-exit"@.len());
    reveal_strlit("get-all-picture-quality");
    assert("set-contrast"@.len() != "get-all-picture-quality"@.len());
    reveal_strlit("set-all-picture-quality");
    assert("set-contrast"@.len() != "set-all-picture-quality"@.len());
    reveal_strlit("get-brightness");
    assert("set-contrast"@.len() != "get-brightness"@.len());
    reveal_strlit("set-brightness");
    assert("set-contrast"@.len() != "set-brightness"@.len());
    reveal_strlit("get-contrast");
    assert("set-contrast"@[0] != "get-contrast"@[0]);
}

proof fn lemma_name_id_get_hue()
    ensures
        spec_notify_command_id_from_name("get-hue"@) == 0x46,
{
    reveal_strlit("get-hue");
    reveal_strlit("boot-completed");
    assert("get-hue"@.len() != "boot-completed"@.len());
    reveal_strlit("start-input");
    assert("get-hue"@.len() != "start-input"@.len());
    reveal_strlit("stop-input");
    assert("get-hue"@.len() != "stop-input"@.len());
    reveal_strlit("mute-unmute-change-output");
    assert("get-hue"@.len() != "mute-unmute-change-output"@.len());
    reveal_strlit("save-user-param");
    assert("get-hue"@.len() != "save-user-param"@.len());
    reveal_strlit("initialize-user-param");
    assert("get-hue"@.len() != "initialize-user-param"@.len());
    reveal_strlit("shutdown-reboot");
    assert("get-hue"@.len() != "shutdown-reboot"@.len());
    reveal_strlit("stop-input-specially");
    assert("get-hue"@.len() != "stop-input-specially"@.len());
    reveal_strlit("emergency");
    assert("get-hue"@.len() != "emergency"@.len());
    reveal_strlit("temperature-emergency-and-recovery");
    assert("get-hue"@.len() != "temperature-emergency-and-recovery"@.len());
    reveal_strlit("command-emergency");
    assert("get-hue"@.len() != "command-emergency"@.len());
    reveal_strlit("get-video-output-position");
    assert("get-hue"@.len() != "get-video-output-position"@.len());
    reveal_strlit("set-video-output-position");
    assert("get-hue"@.len() != "set-video-output-position"@.len());
    reveal_strlit("get-optical-alignment");
    assert("get-hue"@.len() != "get-optical-alignment"@.len());
    reveal_strlit("set-optical-alignment");
    assert("get-hue"@.len() != "set-optical-alignment"@.len());
    reveal_strlit("get-biphase");
    assert("get-hue"@.len() != "get-biphase"@.len());
    reveal_strlit("set-biphase");
    assert("get-hue"@.len() != "set-biphase"@.len());
    reveal_strlit("set-easy-optical-adjustment-control");
    assert("get-hue"@.len() != "set-easy-optical-adjustment-control"@.len());
    reveal_strlit("set-easy-optical-adjustment-plus");
    assert("get-hue"@.len() != "set-easy-optical-adjustment-plus"@.len());
    reveal_strlit("set-easy-optical-adjustment-minus");
    assert("get-hue"@.len() != "set-easy-optical-adjustment-minus"@.len());
    reveal_strlit("set-easy-optical-adjustment-exit");
    assert("get-hue"@.len() != "set-easy-optical-adjustment-exit"@.len());
    reveal_strlit("set-easy-biphase-adjustment-control");
    assert("get-hue"@.len() != "set-easy-biphase-adjustment-control"@.len());
    reveal_strlit("set-easy-biphase-adjustment-plus");
    assert("get-hue"@.len() != "set-easy-biphase-adjustment-plus"@.len());
    reveal_strlit("set-easy-biphase-adjustment-minus");
    assert("get-hue"@.len() != "set-easy-biphase-adjustment-minus"@.len());
    reveal_strlit("set-easy-biphase-adjustment-exit");
    assert("get-hue"@.len() != "set-easy-biphase-adjustment-exit"@.len());
    reveal_strlit("get-all-picture-quality");
    assert("get-hue"@.len() != "get-all-picture-quality"@.len());
    reveal_strlit("set-all-picture-quality");
    assert("get-hue"@.len() != "set-all-picture-quality"@.len());
    reveal_strlit("get-brightness");
    assert("get-hue"@.len() != "get-brightness"@.len());
    reveal_strlit("set-brightness");
    assert("get-hue"@.len() != "set-brightness"@.len());
    reveal_strlit("get-contrast");
    assert("get-hue"@.len() != "get-contrast"@.len());
    reveal_strlit("set-contrast");
    assert("get-hue"@.len() != "set-contrast"@.len());
}

proof fn lemma_name_id_set_hue()
    ensures
        spec_notify_command_id_from_name("set-hue"@) == 0x47,
{
    reveal_strlit("set-hue");
    reveal_strlit("boot-completed");
    assert("set-hue"@.len() != "boot-completed"@.len());
    reveal_strlit("start-input");
    assert("set-hue"@.len() != "start-input"@.len());
    reveal_strlit("stop-input");
    assert("set-hue"@.len() != "stop-input"@.len());
    reveal_strlit("mute-unmute-change-output");
    assert("set-hue"@.len() != "mute-unmute-change-output"@.len());
    reveal_strlit("save-user-param");
    assert("set-hue"@.len() != "save-user-param"@.len());
    reveal_strlit("initialize-user-param");
    assert("set-hue"@.len() != "initialize-user-param"@.len());
    reveal_strlit("shutdown-reboot");
    assert("set-hue"@.len() != "shutdown-reboot"@.len());
    reveal_strlit("stop-input-specially");
    assert("set-hue"@.len() != "stop-input-specially"@.len());
    reveal_strlit("emergency");
    assert("set-hue"@.len() != "emergency"@.len());
    reveal_strlit("temperature-emergency-and-recovery");
    assert("set-hue"@.len() != "temperature-emergency-and-recovery"@.len());
    reveal_strlit("command-emergency");
    assert("set-hue"@.len() != "command-emergency"@.len());
    reveal_strlit("get-video-output-position");
    assert("set-hue"@.len() != "get-video-output-position"@.len());
    reveal_strlit("set-video-output-position");
    assert("set-hue"@.len() != "set-video-output-position"@.len());
    reveal_strlit("get-optical-alignment");
    assert("set-hue"@.len() != "get-optical-alignment"@.len());
    reveal_strlit("set-optical-alignment");
    assert("set-hue"@.len() != "set-optical-alignment"@.len());
    reveal_strlit("get-biphase");
    assert("set-hue"@.len() != "get-biphase"@.len());
    reveal_strlit("set-biphase");
    assert("set-hue"@.len() != "set-biphase"@.len());
    reveal_strlit("set-easy-optical-adjustment-control");
    assert("set-hue"@.len() != "set-easy-optical-adjustment-control"@.len());
    reveal_strlit("set-easy-optical-adjustment-plus");
    assert("set-hue"@.len() != "set-easy-optical-adjustment-plus"@.len());
    reveal_strlit("set-easy-optical-adjustment-minus");
    assert("set-hue"@.len() != "set-easy-optical-adjustment-minus"@.len());
    reveal_strlit("set-easy-optical-adjustment-exit");
    assert("set-hue"@.len() != "set-easy-optical-adjustment-exit"@.len());
    reveal_strlit("set-easy-biphase-adjustment-control");
    assert("set-hue"@.len() != "set-easy-biphase-adjustment-control"@.len());
    reveal_strlit("set-easy-biphase-adjustment-plus");
    assert("set-hue"@.len() != "set-easy-biphase-adjustment-plus"@.len());
    reveal_strlit("set-easy-biphase-adjustment-minus");
    assert("set-hue"@.len() != "set-easy-biphase-adjustment-minus"@.len());
    reveal_strlit("set-easy-biphase-adjustment-exit");
    assert("set-hue"@.len() != "set-easy-biphase-adjustment-exit"@.len());
    reveal_strlit("get-all-picture-quality");
    assert("set-hue"@.len() != "get-all-picture-quality"@.len());
    reveal_strlit("set-all-picture-quality");
    assert("set-hue"@.len() != "set-all-picture-quality"@.len());
    reveal_strlit("get-brightness");
    assert("set-hue"@.len() != "get-brightness"@.len());
    reveal_strlit("set-brightness");
    assert("set-hue"@.len() != "set-brightness"@.len());
    reveal_strlit("get-contrast");
    assert("set-hue"@.len() != "get-contrast"@.len());
    reveal_strlit("set-contrast");
    assert("set-hue"@.len() != "set-contrast"@.len());
    reveal_strlit("get-hue");
    assert("set-hue"@[0] != "get-hue"@[0]);
}

proof fn lemma_name_id_get_saturation()
    ensures
        spec_notify_command_id_from_name("get-saturation"@) == 0x48,
{
    reveal_strlit("get-saturation");
    reveal_strlit("boot-completed");
    assert("get-saturation"@[0] != "boot-completed"@[0]);
    reveal_strlit("start-input");
    assert("get-saturation"@.len() != "start-input"@.len());
    reveal_strlit("stop-input");
    assert("get-saturation"@.len() != "stop-input"@.len());
    reveal_strlit("mute-unmute-change-output");
    assert("get-saturation"@.len() != "mute-unmute-change-output"@.len());
    reveal_strlit("save-user-param");
    assert("get-saturation"@.len() != "save-user-param"@.len());
    reveal_strlit("initialize-user-param");
    assert("get-saturation"@.len() != "initialize-user-param"@.len());
    reveal_strlit("shutdown-reboot");
    assert("get-saturation"@.len() != "shutdown-reboot"@.len());
    reveal_strlit("stop-input-specially");
    assert("get-saturation"@.len() != "stop-input-specially"@.len());
    reveal_strlit("emergency");
    assert("get-saturation"@.len() != "emergency"@.len());
    reveal_strlit("temperature-emergency-and-recovery");
    assert("get-saturation"@.len() != "temperature-emergency-and-recovery"@.len());
    reveal_strlit("command-emergency");
    assert("get-saturation"@.len() != "command-emergency"@.len());
    reveal_strlit("get-video-output-position");
    assert("get-saturation"@.len() != "get-video-output-position"@.len());
    reveal_strlit("set-video-output-position");
    assert("get-saturation"@.len() != "set-video-output-position"@.len());
    reveal_strlit("get-optical-alignment");
    assert("get-saturation"@.len() != "get-optical-alignment"@.len());
    reveal_strlit("set-optical-alignment");
    assert("get-saturation"@.len() != "set-optical-alignment"@.len());
    reveal_strlit("get-biphase");
    assert("get-saturation"@.len() != "get-biphase"@.len());
    reveal_strlit("set-biphase");
    assert("get-saturation"@.len() != "set-biphase"@.len());
    reveal_strlit("set-easy-optical-adjustment-control");
    assert("get-saturation"@.len() != "set-easy-optical-adjustment-control"@.len());
    reveal_strlit("set-easy-optical-adjustment-plus");
    assert("get-saturation"@.len() != "set-easy-optical-adjustment-plus"@.len());
    reveal_strlit("set-easy-optical-adjustment-minus");
    assert("get-saturation"@.len() != "set-easy-optical-adjustment-minus"@.len());
    reveal_strlit("set-easy-optical-adjustment-exit");
    assert("get-saturation"@.len() != "set-easy-optical-adjustment-exit"@.len());
    reveal_strlit("set-easy-biphase-adjustment-control");
    assert("get-saturation"@.len() != "set-easy-biphase-adjustment-control"@.len());
    reveal_strlit("set-easy-biphase-adjustment-plus");
    assert("get-saturation"@.len() != "set-easy-biphase-adjustment-plus"@.len());
    reveal_strlit("set-easy-biphase-adjustment-minus");
    assert("get-saturation"@.len() != "set-easy-biphase-adjustment-minus"@.len());
    reveal_strlit("set-easy-biphase-adjustment-exit");
    assert("get-saturation"@.len() != "set-easy-biphase-adjustment-exit"@.len());
    reveal_strlit("get-all-picture-quality");
    assert("get-saturation"@.len() != "get-all-picture-quality"@.len());
    reveal_strlit("set-all-picture-quality");
    assert("get-saturation"@.len() != "set-all-picture-quality"@.len());
    reveal_strlit("get-brightness");
    assert("get-saturation"@[4] != "get-brightness"@[4]);
    reveal_strlit("set-brightness");
    assert("get-saturation"@[0] != "set-brightness"@[0]);
    reveal_strlit("get-contrast");
    assert("get-saturation"@.len() != "get-contrast"@.len());
    reveal_strlit("set-contrast");
    assert("get-saturation"@.len() != "set-contrast"@.len());
    reveal_strlit("get-hue");
    assert("get-saturation"@.len() != "get-hue"@.len());
    reveal_strlit("set-hue");
    assert("get-saturation"@.len() != "set-hue"@.len());
}

proof fn lemma_name_id_set_saturation()
    ensures
        spec_notify_command_id_from_name("set-saturation"@) == 0x49,
{
    reveal_strlit("set-saturation");
    reveal_strlit("boot-completed");
    assert("set-saturation"@[0] != "boot-completed"@[0]);
    reveal_strlit("start-input");
    assert("set-saturation"@.len() != "start-input"@.len());
    reveal_strlit("stop-input");
    assert("set-saturation"@.len() != "stop-input"@.len());
    reveal_strlit("mute-unmute-change-output");
    assert("set-saturation"@.len() != "mute-unmute-change-output"@.len());
    reveal_strlit("save-user-param");
    assert("set-saturation"@.len() != "save-user-param"@.len());
    reveal_strlit("initialize-user-param");
    assert("set-saturation"@.len() != "initialize-user-param"@.len());
    reveal_strlit("shutdown-reboot");
    assert("set-saturation"@.len() != "shutdown-reboot"@.len());
    reveal_strlit("stop-input-specially");
    assert("set-saturation"@.len() != "stop-input-specially"@.len());
    reveal_strlit("emergency");
    assert("set-saturation"@.len() != "emergency"@.len());
    reveal_strlit("temperature-emergency-and-recovery");
    assert("set-saturation"@.len() != "temperature-emergency-and-recovery"@.len());
    reveal_strlit("command-emergency");
    assert("set-saturation"@.len() != "command-emergency"@.len());
    reveal_strlit("get-video-output-position");
    assert("set-saturation"@.len() != "get-video-output-position"@.len());
    reveal_strlit("set-video-output-position");
    assert("set-saturation"@.len() != "set-video-output-position"@.len());
    reveal_strlit("get-optical-alignment");
    assert("set-saturation"@.len() != "get-optical-alignment"@.len());
    reveal_strlit("set-optical-alignment");
    assert("set-saturation"@.len() != "set-optical-alignment"@.len());
    reveal_strlit("get-biphase");
    assert("set-saturation"@.len() != "get-biphase"@.len());
    reveal_strlit("set-biphase");
    assert("set-saturation"@.len() != "set-biphase"@.len());
    reveal_strlit("set-easy-optical-adjustment-control");
    assert("set-saturation"@.len() != "set-easy-optical-adjustment-control"@.len());
    reveal_strlit("set-easy-optical-adjustment-plus");
    assert("set-saturation"@.len() != "set-easy-optical-adjustment-plus"@.len());
    reveal_strlit("set-easy-optical-adjustment-minus");
    assert("set-saturation"@.len() != "set-easy-optical-adjustment-minus"@.len());
    reveal_strlit("set-easy-optical-adjustment-exit");
    assert("set-saturation"@.len() != "set-easy-optical-adjustment-exit"@.len());
    reveal_strlit("set-easy-biphase-adjustment-control");
    assert("set-saturation"@.len() != "set-easy-biphase-adjustment-control"@.len());
    reveal_strlit("set-easy-biphase-adjustment-plus");
    assert("set-saturation"@.len() != "set-easy-biphase-adjustment-plus"@.len());
    reveal_strlit("set-easy-biphase-adjustment-minus");
    assert("set-saturation"@.len() != "set-easy-biphase-adjustment-minus"@.len());
    reveal_strlit("set-easy-biphase-adjustment-exit");
    assert("set-saturation"@.len() != "set-easy-biphase-adjustment-exit"@.len());
    reveal_strlit("get-all-picture-quality");
    assert("set-saturation"@.len() != "get-all-picture-quality"@.len());
    reveal_strlit("set-all-picture-quality");
    assert("set-saturation"@.len() != "set-all-picture-quality"@.len());
    reveal_strlit("get-brightness");
    assert("set-saturation"@[0] != "get-brightness"@[0]);
    reveal_strlit("set-brightness");
    assert("set-saturation"@[4] != "set-brightness"@[4]);
    reveal_strlit("get-contrast");
    assert("set-saturation"@.len() != "get-contrast"@.len());
    reveal_strlit("set-contrast");
    assert("set-saturation"@.len() != "set-contrast"@.len());
    reveal_strlit("get-hue");
    assert("set-saturation"@.len() != "get-hue"@.len());
    reveal_strlit("set-hue");
    assert("set-saturation"@.len() != "set-hue"@.len());
    reveal_strlit("get-saturation");
    assert("set-saturation"@[0] != "get-saturation"@[0]);
}

proof fn lemma_name_id_get_sharpness()
    ensures
        spec_notify_command_id_from_name("get-sharpness"@) == 0x4E,
{
    reveal_strlit("get-sharpness");
    reveal_strlit("boot-completed");
    assert("get-sharpness"@.len() != "boot-completed"@.len());
    reveal_strlit("start-input");
    assert("get-sharpness"@.len() != "start-input"@.len());
    reveal_strlit("stop-input");
    assert("get-sharpness"@.len() != "stop-input"@.len());
    reveal_strlit("mute-unmute-change-output");
    assert("get-sharpness"@.len() != "mute-unmute-change-output"@.len());
    reveal_strlit("save-user-param");
    assert("get-sharpness"@.len() != "save-user-param"@.len());
    reveal_strlit("initialize-user-param");
    assert("get-sharpness"@.len() != "initialize-user-param"@.len());
    reveal_strlit("shutdown-reboot");
    assert("get-sharpness"@.len() != "shutdown-reboot"@.len());
    reveal_strlit("stop-input-specially");
    assert("get-sharpness"@.len() != "stop-input-specially"@.len());
    reveal_strlit("emergency");
    assert("get-sharpness"@.len() != "emergency"@.len());
    reveal_strlit("temperature-emergency-and-recovery");
    assert("get-sharpness"@.len() != "temperature-emergency-and-recovery"@.len());
    reveal_strlit("command-emergency");
    assert("get-sharpness"@.len() != "command-emergency"@.len());
    reveal_strlit("get-video-output-position");
    assert("get-sharpness"@.len() != "get-video-output-position"@.len());
    reveal_strlit("set-video-output-position");
    assert("get-sharpness"@.len() != "set-video-output-position"@.len());
    reveal_strlit("get-optical-alignment");
    assert("get-sharpness"@.len() != "get-optical-alignment"@.len());
    reveal_strlit("set-optical-alignment");
    assert("get-sharpness"@.len() != "set-optical-alignment"@.len());
    reveal_strlit("get-biphase");
    assert("get-sharpness"@.len() != "get-biphase"@.len());
    reveal_strlit("set-biphase");
    assert("get-sharpness"@.len() != "set-biphase"@.len());
    reveal_strlit("set-easy-optical-adjustment-control");
    assert("get-sharpness"@.len() != "set-easy-optical-adjustment-control"@.len());
    reveal_strlit("set-easy-optical-adjustment-plus");
    assert("get-sharpness"@.len() != "set-easy-optical-adjustment-plus"@.len());
    reveal_strlit("set-easy-optical-adjustment-minus");
    assert("get-sharpness"@.len() != "set-easy-optical-adjustment-minus"@.len());
    reveal_strlit("set-easy-optical-adjustment-exit");
    assert("get-sharpness"@.len() != "set-easy-optical-adjustment-exit"@.len());
    reveal_strlit("set-easy-biphase-adjustment-control");
    assert("get-sharpness"@.len() != "set-easy-biphase-adjustment-control"@.len());
    reveal_strlit("set-easy-biphase-adjustment-plus");
    assert("get-sharpness"@.len() != "set-easy-biphase-adjustment-plus"@.len());
    reveal_strlit("set-easy-biphase-adjustment-minus");
    assert("get-sharpness"@.len() != "set-easy-biphase-adjustment-minus"@.len());
    reveal_strlit("set-easy-biphase-adjustment-exit");
    assert("get-sharpness"@.len() != "set-easy-biphase-adjustment-exit"@.len());
    reveal_strlit("get-all-picture-quality");
    assert("get-sharpness"@.len() != "get-all-picture-quality"@.len());
    reveal_strlit("set-all-picture-quality");
    assert("get-sharpness"@.len() != "set-all-picture-quality"@.len());
    reveal_strlit("get-brightness");
    assert("get-sharpness"@.len() != "get-brightness"@.len());
    reveal_strlit("set-brightness");
    assert("get-sharpness"@.len() != "set-brightness"@.len());
    reveal_strlit("get-contrast");
    assert("get-sharpness"@.len() != "get-contrast"@.len());
    reveal_strlit("set-contrast");
    assert("get-sharpness"@.len() != "set-contrast"@.len());
    reveal_strlit("get-hue");
    assert("get-sharpness"@.len() != "get-hue"@.len());
    reveal_strlit("set-hue");
    assert("get-sharpness"@.len() != "set-hue"@.len());
    reveal_strlit("get-saturation");
    assert("get-sharpness"@.len() != "get-saturation"@.len());
    reveal_strlit("set-saturation");
    assert("get-sharpness"@.len() != "set-saturation"@.len());
}

proof fn lemma_name_id_set_sharpness()
    ensures
        spec_notify_command_id_from_name("set-sharpness"@) == 0x4F,
{
    reveal_strlit("set-sharpness");
    reveal_strlit("boot-completed");
    assert("set-sharpness"@.len() != "boot-completed"@.len());
    reveal_strlit("start-input");
    assert("set-sharpness"@.len() != "start-input"@.len());
    reveal_strlit("stop-input");
    assert("set-sharpness"@.len() != "stop-input"@.len());
    reveal_strlit("mute-unmute-change-output");
    assert("set-sharpness"@.len() != "mute-unmute-change-output"@.len());
    reveal_strlit("save-user-param");
    assert("set-sharpness"@.len() != "save-user-param"@.len());
    reveal_strlit("initialize-user-param");
    assert("set-sharpness"@.len() != "initialize-user-param"@.len());
    reveal_strlit("shutdown-reboot");
    assert("set-sharpness"@.len() != "shutdown-reboot"@.len());
    reveal_strlit("stop-input-specially");
    assert("set-sharpness"@.len() != "stop-input-specially"@.len());
    reveal_strlit("emergency");
    assert("set-sharpness"@.len() != "emergency"@.len());
    reveal_strlit("temperature-emergency-and-recovery");
    assert("set-sharpness"@.len() != "temperature-emergency-and-recovery"@.len());
    reveal_strlit("command-emergency");
    assert("set-sharpness"@.len() != "command-emergency"@.len());
    reveal_strlit("get-video-output-position");
    assert("set-sharpness"@.len() != "get-video-output-position"@.len());
    reveal_strlit("set-video-output-position");
    assert("set-sharpness"@.len() != "set-video-output-position"@.len());
    reveal_strlit("get-optical-alignment");
    assert("set-sharpness"@.len() != "get-optical-alignment"@.len());
    reveal_strlit("set-optical-alignment");
    assert("set-sharpness"@.len() != "set-optical-alignment"@.len());
    reveal_strlit("get-biphase");
    assert("set-sharpness"@.len() != "get-biphase"@.len());
    reveal_strlit("set-biphase");
    assert("set-sharpness"@.len() != "set-biphase"@.len());
    reveal_strlit("set-easy-optical-adjustment-control");
    assert("set-sharpness"@.len() != "set-easy-optical-adjustment-control"@.len());
    reveal_strlit("set-easy-optical-adjustment-plus");
    assert("set-sharpness"@.len() != "set-easy-optical-adjustment-plus"@.len());
    reveal_strlit("set-easy-optical-adjustment-minus");
    assert("set-sharpness"@.len() != "set-easy-optical-adjustment-minus"@.len());
    reveal_strlit("set-easy-optical-adjustment-exit");
    assert("set-sharpness"@.len() != "set-easy-optical-adjustment-exit"@.len());
    reveal_strlit("set-easy-biphase-adjustment-control");
    assert("set-sharpness"@.len() != "set-easy-biphase-adjustment-control"@.len());
    reveal_strlit("set-easy-biphase-adjustment-plus");
    assert("set-sharpness"@.len() != "set-easy-biphase-adjustment-plus"@.len());
    reveal_strlit("set-easy-biphase-adjustment-minus");
    assert("set-sharpness"@.len() != "set-easy-biphase-adjustment-minus"@.len());
    reveal_strlit("set-easy-biphase-adjustment-exit");
    assert("set-sharpness"@.len() != "set-easy-biphase-adjustment-exit"@.len());
    reveal_strlit("get-all-picture-quality");
    assert("set-sharpness"@.len() != "get-all-picture-quality"@.len());
    reveal_strlit("set-all-picture-quality");
    assert("set-sharpness"@.len() != "set-all-picture-quality"@.len());
    reveal_strlit("get-brightness");
    assert("set-sharpness"@.len() != "get-brightness"@.len());
    reveal_strlit("set-brightness");
    assert("set-sharpness"@.len() != "set-brightness"@.len());
    reveal_strlit("get-contrast");
    assert("set-sharpness"@.len() != "get-contrast"@.len());
    reveal_strlit("set-contrast");
    assert("set-sharpness"@.len() != "set-contrast"@.len());
    reveal_strlit("get-hue");
    assert("set-sharpness"@.len() != "get-hue"@.len());
    reveal_strlit("set-hue");
    assert("set-sharpness"@.len() != "set-hue"@.len());
    reveal_strlit("get-saturation");
    assert("set-sharpness"@.len() != "get-saturation"@.len());
    reveal_strlit("set-saturation");
    assert("set-sharpness"@.len() != "set-saturation"@.len());
    reveal_strlit("get-sharpness");
    assert("set-sharpness"@[0] != "get-sharpness"@[0]);
}

proof fn lemma_name_id_update_fw_image()
    ensures
        spec_notify_command_id_from_name("update-fw-image"@) == 0x82,
{
    reveal_strlit("update-fw-image");
    reveal_strlit("boot-completed");
    assert("update-fw-image"@.len() != "boot-completed"@.len());
    reveal_strlit("start-input");
    assert("update-fw-image"@.len() != "start-input"@.len());
    reveal_strlit("stop-input");
    assert("update-fw-image"@.len() != "stop-input"@.len());
    reveal_strlit("mute-unmute-change-output");
    assert("update-fw-image"@.len() != "mute-unmute-change-output"@.len());
    reveal_strlit("save-user-param");
    assert("update-fw-image"@[0] != "save-user-param"@[0]);
    reveal_strlit("initialize-user-param");
    assert("update-fw-image"@.len() != "initialize-user-param"@.len());
    reveal_strlit("shutdown-reboot");
    assert("update-fw-image"@[0] != "shutdown-reboot"@[0]);
    reveal_strlit("stop-input-specially");
    assert("update-fw-image"@.len() != "stop-input-specially"@.len());
    reveal_strlit("emergency");
    assert("update-fw-image"@.len() != "emergency"@.len());
    reveal_strlit("temperature-emergency-and-recovery");
    assert("update-fw-image"@.len() != "temperature-emergency-and-recovery"@.len());
    reveal_strlit("command-emergency");
    assert("update-fw-image"@.len() != "command-emergency"@.len());
    reveal_strlit("get-video-output-position");
    assert("update-fw-image"@.len() != "get-video-output-position"@.len());
    reveal_strlit("set-video-output-position");
    assert("update-fw-image"@.len() != "set-video-output-position"@.len());
    reveal_strlit("get-optical-alignment");
    assert("update-fw-image"@.len() != "get-optical-alignment"@.len());
    reveal_strlit("set-optical-alignment");
    assert("update-fw-image"@.len() != "set-optical-alignment"@.len());
    reveal_strlit("get-biphase");
    assert("update-fw-image"@.len() != "get-biphase"@.len());
    reveal_strlit("set-biphase");
    assert("update-fw-image"@.len() != "set-biphase"@.len());
    reveal_strlit("set-easy-optical-adjustment-control");
    assert("update-fw-image"@.len() != "set-easy-optical-adjustment-control"@.len());
    reveal_strlit("set-easy-optical-adjustment-plus");
    assert("update-fw-image"@.len() != "set-easy-optical-adjustment-plus"@.len());
    reveal_strlit("set-easy-optical-adjustment-minus");
    assert("update-fw-image"@.len() != "set-easy-optical-adjustment-minus"@.len());
    reveal_strlit("set-easy-optical-adjustment-exit");
    assert("update-fw-image"@.len() != "set-easy-optical-adjustment-exit"@.len());
    reveal_strlit("set-easy-biphase-adjustment-control");
    assert("update-fw-image"@.len() != "set-easy-biphase-adjustment-control"@.len());
    reveal_strlit("set-easy-biphase-adjustment-plus");
    assert("update-fw-image"@.len() != "set-easy-biphase-adjustment-plus"@.len());
    reveal_strlit("set-easy-biphase-adjustment-minus");
    assert("update-fw-image"@.len() != "set-easy-biphase-adjustment-minus"@.len());
    reveal_strlit("set-easy-biphase-adjustment-exit");
    assert("update-fw-image"@.len() != "set-easy-biphase-adjustment-exit"@.len());
    reveal_strlit("get-all-picture-quality");
    assert("update-fw-image"@.len() != "get-all-picture-quality"@.len());
    reveal_strlit("set-all-picture-quality");
    assert("update-fw-image"@.len() != "set-all-picture-quality"@.len());
    reveal_strlit("get-brightness");
    assert("update-fw-image"@.len() != "get-brightness"@.len());
    reveal_strlit("set-brightness");
    assert("update-fw-image"@.len() != "set-brightness"@.len());
    reveal_strlit("get-contrast");
    assert("update-fw-image"@.len() != "get-contrast"@.len());
    reveal_strlit("set-contrast");
    assert("update-fw-image"@.len() != "set-contrast"@.len());
    reveal_strlit("get-hue");
    assert("update-fw-image"@.len() != "get-hue"@.len());
    reveal_strlit("set-hue");
    assert("update-fw-image"@.len() != "set-hue"@.len());
    reveal_strlit("get-saturation");
    assert("update-fw-image"@.len() != "get-saturation"@.len());
    reveal_strlit("set-saturation");
    assert("update-fw-image"@.len() != "set-saturation"@.len());
    reveal_strlit("get-sharpness");
    assert("update-fw-image"@.len() != "get-sharpness"@.len());
    reveal_strlit("set-sharpness");
    assert("update-fw-image"@.len() != "set-sharpness"@.len());
}

proof fn lemma_name_id_update_picture_data()
    ensures
        spec_notify_command_id_from_name("update-picture-data"@) == 0x84,
{
    reveal_strlit("update-picture-data");
    reveal_strlit("boot-completed");
    assert("update-picture-data"@.len() != "boot-completed"@.len());
    reveal_strlit("start-input");
    assert("update-picture-data"@.len() != "start-input"@.len());
    reveal_strlit("stop-input");
    assert("update-picture-data"@.len() != "stop-input"@.len());
    reveal_strlit("mute-unmute-change-output");
    assert("update-picture-data"@.len() != "mute-unmute-change-output"@.len());
    reveal_strlit("save-user-param");
    assert("update-picture-data"@.len() != "save-user-param"@.len());
    reveal_strlit("initialize-user-param");
    assert("update-picture-data"@.len() != "initialize-user-param"@.len());
    reveal_strlit("shutdown-reboot");
    assert("update-picture-data"@.len() != "shutdown-reboot"@.len());
    reveal_strlit("stop-input-specially");
    assert("update-picture-data"@.len() != "stop-input-specially"@.len());
    reveal_strlit("emergency");
    assert("update-picture-data"@.len() != "emergency"@.len());
    reveal_strlit("temperature-emergency-and-recovery");
    assert("update-picture-data"@.len() != "temperature-emergency-and-recovery"@.len());
    reveal_strlit("command-emergency");
    assert("update-picture-data"@.len() != "command-emergency"@.len());
    reveal_strlit("get-video-output-position");
    assert("update-picture-data"@.len() != "get-video-output-position"@.len());
    reveal_strlit("set-video-output-position");
    assert("update-picture-data"@.len() != "set-video-output-position"@.len());
    reveal_strlit("get-optical-alignment");
    assert("update-picture-data"@.len() != "get-optical-alignment"@.len());
    reveal_strlit("set-optical-alignment");
    assert("update-picture-data"@.len() != "set-optical-alignment"@.len());
    reveal_strlit("get-biphase");
    assert("update-picture-data"@.len() != "get-biphase"@.len());
    reveal_strlit("set-biphase");
    assert("update-picture-data"@.len() != "set-biphase"@.len());
    reveal_strlit("set-easy-optical-adjustment-control");
    assert("update-picture-data"@.len() != "set-easy-optical-adjustment-control"@.len());
    reveal_strlit("set-easy-optical-adjustment-plus");
    assert("update-picture-data"@.len() != "set-easy-optical-adjustment-plus"@.len());
    reveal_strlit("set-easy-optical-adjustment-minus");
    assert("update-picture-data"@.len() != "set-easy-optical-adjustment-minus"@.len());
    reveal_strlit("set-easy-optical-adjustment-exit");
    assert("update-picture-data"@.len() != "set-easy-optical-adjustment-exit"@.len());
    reveal_strlit("set-easy-biphase-adjustment-control");
    assert("update-picture-data"@.len() != "set-easy-biphase-adjustment-control"@.len());
    reveal_strlit("set-easy-biphase-adjustment-plus");
    assert("update-picture-data"@.len() != "set-easy-biphase-adjustment-plus"@.len());
    reveal_strlit("set-easy-biphase-adjustment-minus");
    assert("update-picture-data"@.len() != "set-easy-biphase-adjustment-minus"@.len());
    reveal_strlit("set-easy-biphase-adjustment-exit");
    assert("update-picture-data"@.len() != "set-easy-biphase-adjustment-exit"@.len());
    reveal_strlit("get-all-picture-quality");
    assert("update-picture-data"@.len() != "get-all-picture-quality"@.len());
    reveal_strlit("set-all-picture-quality");
    assert("update-picture-data"@.len() != "set-all-picture-quality"@.len());
    reveal_strlit("get-brightness");
    assert("update-picture-data"@.len() != "get-brightness"@.len());
    reveal_strlit("set-brightness");
    assert("update-picture-data"@.len() != "set-brightness"@.len());
    reveal_strlit("get-contrast");
    assert("update-picture-data"@.len() != "get-contrast"@.len());
    reveal_strlit("set-contrast");
    assert("update-picture-data"@.len() != "set-contrast"@.len());
    reveal_strlit("get-hue");
    assert("update-picture-data"@.len() != "get-hue"@.len());
    reveal_strlit("set-hue");
    assert("update-picture-data"@.len() != "set-hue"@.len());
    reveal_strlit("get-saturation");
    assert("update-picture-data"@.len() != "get-saturation"@.len());
    reveal_strlit("set-saturation");
    assert("update-picture-data"@.len() != "set-saturation"@.len());
    reveal_strlit("get-sharpness");
    assert("update-picture-data"@.len() != "get-sharpness"@.len());
    reveal_strlit("set-sharpness");
    assert("update-picture-data"@.len() != "set-sharpness"@.len());
    reveal_strlit("update-fw-image");
    assert("update-picture-data"@.len() != "update-fw-image"@.len());
}

proof fn lemma_name_id_division_transmission_update_fw_image()
    ensures
        spec_notify_command_id_from_name("division-transmission-update-fw-image"@) == 0x92,
{
    reveal_strlit("division-transmission-update-fw-image");
    reveal_strlit("boot-completed");
    assert("division-transmission-update-fw-image"@.len() != "boot-completed"@.len());
    reveal_strlit("start-input");
    assert("division-transmission-update-fw-image"@.len() != "start-input"@.len());
    reveal_strlit("stop-input");
    assert("division-transmission-update-fw-image"@.len() != "stop-input"@.len());
    reveal_strlit("mute-unmute-change-output");
    assert("division-transmission-update-fw-image"@.len() != "mute-unmute-change-output"@.len());
    reveal_strlit("save-user-param");
    assert("division-transmission-update-fw-image"@.len() != "save-user-param"@.len());
    reveal_strlit("initialize-user-param");
    assert("division-transmission-update-fw-image"@.len() != "initialize-user-param"@.len());
    reveal_strlit("shutdown-reboot");
    assert("division-transmission-update-fw-image"@.len() != "shutdown-reboot"@.len());
    reveal_strlit("stop-input-specially");
    assert("division-transmission-update-fw-image"@.len() != "stop-input-specially"@.len());
    reveal_strlit("emergency");
    assert("division-transmission-update-fw-image"@.len() != "emergency"@.len());
    reveal_strlit("temperature-emergency-and-recovery");
    assert("division-transmission-update-fw-image"@.len() != "temperature-emergency-and-recovery"@.len());
    reveal_strlit("command-emergency");
    assert("division-transmission-update-fw-image"@.len() != "command-emergency"@.len());
    reveal_strlit("get-video-output-position");
    assert("division-transmission-update-fw-image"@.len() != "get-video-output-position"@.len());
    reveal_strlit("set-video-output-position");
    assert("division-transmission-update-fw-image"@.len() != "set-video-output-position"@.len());
    reveal_strlit("get-optical-alignment");
    assert("division-transmission-update-fw-image"@.len() != "get-optical-alignment"@.len());
    reveal_strlit("set-optical-alignment");
    assert("division-transmission-update-fw-image"@.len() != "set-optical-alignment"@.len());
    reveal_strlit("get-biphase");
    assert("division-transmission-update-fw-image"@.len() != "get-biphase"@.len());
    reveal_strlit("set-biphase");
    assert("division-transmission-update-fw-image"@.len() != "set-biphase"@.len());
    reveal_strlit("set-easy-optical-adjustment-control");
    assert("division-transmission-update-fw-image"@.len() != "set-easy-optical-adjustment-control"@.len());
    reveal_strlit("set-easy-optical-adjustment-plus");
    assert("division-transmission-update-fw-image"@.len() != "set-easy-optical-adjustment-plus"@.len());
    reveal_strlit("set-easy-optical-adjustment-minus");
    assert("division-transmission-update-fw-image"@.len() != "set-easy-optical-adjustment-minus"@.len());
    reveal_strlit("set-easy-optical-adjustment-exit");
    assert("division-transmission-update-fw-image"@.len() != "set-easy-optical-adjustment-exit"@.len());
    reveal_strlit("set-easy-biphase-adjustment-control");
    assert("division-transmission-update-fw-image"@.len() != "set-easy-biphase-adjustment-control"@.len());
    reveal_strlit("set-easy-biphase-adjustment-plus");
    assert("division-transmission-update-fw-image"@.len() != "set-easy-biphase-adjustment-plus"@.len());
    reveal_strlit("set-easy-biphase-adjustment-minus");
    assert("division-transmission-update-fw-image"@.len() != "set-easy-biphase-adjustment-minus"@.len());
    reveal_strlit("set-easy-biphase-adjustment-exit");
    assert("division-transmission-update-fw-image"@.len() != "set-easy-biphase-adjustment-exit"@.len());
    reveal_strlit("get-all-picture-quality");
    assert("division-transmission-update-fw-image"@.len() != "get-all-picture-quality"@.len());
    reveal_strlit("set-all-picture-quality");
    assert("division-transmission-update-fw-image"@.len() != "set-all-picture-quality"@.len());
    reveal_strlit("get-brightness");
    assert("division-transmission-update-fw-image"@.len() != "get-brightness"@.len());
    reveal_strlit("set-brightness");
    assert("division-transmission-update-fw-image"@.len() != "set-brightness"@.len());
    reveal_strlit("get-contrast");
    assert("division-transmission-update-fw-image"@.len() != "get-contrast"@.len());
    reveal_strlit("set-contrast");
    assert("division-transmission-update-fw-image"@.len() != "set-contrast"@.len());
    reveal_strlit("get-hue");
    assert("division-transmission-update-fw-image"@.len() != "get-hue"@.len());
    reveal_strlit("set-hue");
    assert("division-transmission-update-fw-image"@.len() != "set-hue"@.len());
    reveal_strlit("get-saturation");
    assert("division-transmission-update-fw-image"@.len() != "get-saturation"@.len());
    reveal_strlit("set-saturation");
    assert("division-transmission-update-fw-image"@.len() != "set-saturation"@.len());
    reveal_strlit("get-sharpness");
    assert("division-transmission-update-fw-image"@.len() != "get-sharpness"@.len());
    reveal_strlit("set-sharpness");
    assert("division-transmission-update-fw-image"@.len() != "set-sharpness"@.len());
    reveal_strlit("update-fw-image");
    assert("division-transmission-update-fw-image"@.len() != "update-fw-image"@.len());
    reveal_strlit("update-picture-data");
    assert("division-transmission-update-fw-image"@.len() != "update-picture-data"@.len());
}

proof fn lemma_name_id_division_transmission_update_picture_data()
    ensures
        spec_notify_command_id_from_name("division-transmission-update-picture-data"@) == 0x94,
{
    reveal_strlit("division-transmission-update-picture-data");
    reveal_strlit("boot-completed");
    assert("division-transmission-update-picture-data"@.len() != "boot-completed"@.len());
    reveal_strlit("start-input");
    assert("division-transmission-update-picture-data"@.len() != "start-input"@.len());
    reveal_strlit("stop-input");
    assert("division-transmission-update-picture-data"@.len() != "stop-input"@.len());
    reveal_strlit("mute-unmute-change-output");
    assert("division-transmission-update-picture-data"@.len() != "mute-unmute-change-output"@.len());
    reveal_strlit("save-user-param");
    assert("division-transmission-update-picture-data"@.len() != "save-user-param"@.len());
    reveal_strlit("initialize-user-param");
    assert("division-transmission-update-picture-data"@.len() != "initialize-user-param"@.len());
    reveal_strlit("shutdown-reboot");
    assert("division-transmission-update-picture-data"@.len() != "shutdown-reboot"@.len());
    reveal_strlit("stop-input-specially");
    assert("division-transmission-update-picture-data"@.len() != "stop-input-specially"@.len());
    reveal_strlit("emergency");
    assert("division-transmission-update-picture-data"@.len() != "emergency"@.len());
    reveal_strlit("temperature-emergency-and-recovery");
    assert("division-transmission-update-picture-data"@.len() != "temperature-emergency-and-recovery"@.len());
    reveal_strlit("command-emergency");
    assert("division-transmission-update-picture-data"@.len() != "command-emergency"@.len());
    reveal_strlit("get-video-output-position");
    assert("division-transmission-update-picture-data"@.len() != "get-video-output-position"@.len());
    reveal_strlit("set-video-output-position");
    assert("division-transmission-update-picture-data"@.len() != "set-video-output-position"@.len());
    reveal_strlit("get-optical-alignment");
    assert("division-transmission-update-picture-data"@.len() != "get-optical-alignment"@.len());
    reveal_strlit("set-optical-alignment");
    assert("division-transmission-update-picture-data"@.len() != "set-optical-alignment"@.len());
    reveal_strlit("get-biphase");
    assert("division-transmission-update-picture-data"@.len() != "get-biphase"@.len());
    reveal_strlit("set-biphase");
    assert("division-transmission-update-picture-data"@.len() != "set-biphase"@.len());
    reveal_strlit("set-easy-optical-adjustment-control");
    assert("division-transmission-update-picture-data"@.len() != "set-easy-optical-adjustment-control"@.len());
    reveal_strlit("set-easy-optical-adjustment-plus");
    assert("division-transmission-update-picture-data"@.len() != "set-easy-optical-adjustment-plus"@.len());
    reveal_strlit("set-easy-optical-adjustment-minus");
    assert("division-transmission-update-picture-data"@.len() != "set-easy-optical-adjustment-minus"@.len());
    reveal_strlit("set-easy-optical-adjustment-exit");
    assert("division-transmission-update-picture-data"@.len() != "set-easy-optical-adjustment-exit"@.len());
    reveal_strlit("set-easy-biphase-adjustment-control");
    assert("division-transmission-update-picture-data"@.len() != "set-easy-biphase-adjustment-control"@.len());
    reveal_strlit("set-easy-biphase-adjustment-plus");
    assert("division-transmission-update-picture-data"@.len() != "set-easy-biphase-adjustment-plus"@.len());
    reveal_strlit("set-easy-biphase-adjustment-minus");
    assert("division-transmission-update-picture-data"@.len() != "set-easy-biphase-adjustment-minus"@.len());
    reveal_strlit("set-easy-biphase-adjustment-exit");
    assert("division-transmission-update-picture-data"@.len() != "set-easy-biphase-adjustment-exit"@.len());
    reveal_strlit("get-all-picture-quality");
    assert("division-transmission-update-picture-data"@.len() != "get-all-picture-quality"@.len());
    reveal_strlit("set-all-picture-quality");
    assert("division-transmission-update-picture-data"@.len() != "set-all-picture-quality"@.len());
    reveal_strlit("get-brightness");
    assert("division-transmission-update-picture-data"@.len() != "get-brightness"@.len());
    reveal_strlit("set-brightness");
    assert("division-transmission-update-picture-data"@.len() != "set-brightness"@.len());
    reveal_strlit("get-contrast");
    assert("division-transmission-update-picture-data"@.len() != "get-contrast"@.len());
    reveal_strlit("set-contrast");
    assert("division-transmission-update-picture-data"@.len() != "set-contrast"@.len());
    reveal_strlit("get-hue");
    assert("division-transmission-update-picture-data"@.len() != "get-hue"@.len());
    reveal_strlit("set-hue");
    assert("division-transmission-update-picture-data"@.len() != "set-hue"@.len());
    reveal_strlit("get-saturation");
    assert("division-transmission-update-picture-data"@.len() != "get-saturation"@.len());
    reveal_strlit("set-saturation");
    assert("division-transmission-update-picture-data"@.len() != "set-saturation"@.len());
    reveal_strlit("get-sharpness");
    assert("division-transmission-update-picture-data"@.len() != "get-sharpness"@.len());
    reveal_strlit("set-sharpness");
    assert("division-transmission-update-picture-data"@.len() != "set-sharpness"@.len());
    reveal_strlit("update-fw-image");
    assert("division-transmission-update-picture-data"@.len() != "update-fw-image"@.len());
    reveal_strlit("update-picture-data");
    assert("division-transmission-update-picture-data"@.len() != "update-picture-data"@.len());
    reveal_strlit("division-transmission-update-fw-image");
    assert("division-transmission-update-picture-data"@.len() != "division-transmission-update-fw-image"@.len());
}

proof fn lemma_name_id_get_temperature()
    ensures
        spec_notify_command_id_from_name("get-temperature"@) == 0xA0,
{
    reveal_strlit("get-temperature");
    reveal_strlit("boot-completed");
    assert("get-temperature"@.len() != "boot-completed"@.len());
    reveal_strlit("start-input");
    assert("get-temperature"@.len() != "start-input"@.len());
    reveal_strlit("stop-input");
    assert("get-temperature"@.len() != "stop-input"@.len());
    reveal_strlit("mute-unmute-change-output");
    assert("get-temperature"@.len() != "mute-unmute-change-output"@.len());
    reveal_strlit("save-user-param");
    assert("get-temperature"@[0] != "save-user-param"@[0]);
    reveal_strlit("initialize-user-param");
    assert("get-temperature"@.len() != "initialize-user-param"@.len());
    reveal_strlit("shutdown-reboot");
    assert("get-temperature"@[0] != "shutdown-reboot"@[0]);
    reveal_strlit("stop-input-specially");
    assert("get-temperature"@.len() != "stop-input-specially"@.len());
    reveal_strlit("emergency");
    assert("get-temperature"@.len() != "emergency"@.len());
    reveal_strlit("temperature-emergency-and-recovery");
    assert("get-temperature"@.len() != "temperature-emergency-and-recovery"@.len());
    reveal_strlit("command-emergency");
    assert("get-temperature"@.len() != "command-emergency"@.len());
    reveal_strlit("get-video-output-position");
    assert("get-temperature"@.len() != "get-video-output-position"@.len());
    reveal_strlit("set-video-output-position");
    assert("get-temperature"@.len() != "set-video-output-position"@.len());
    reveal_strlit("get-optical-alignment");
    assert("get-temperature"@.len() != "get-optical-alignment"@.len());
    reveal_strlit("set-optical-alignment");
    assert("get-temperature"@.len() != "set-optical-alignment"@.len());
    reveal_strlit("get-biphase");
    assert("get-temperature"@.len() != "get-biphase"@.len());
    reveal_strlit("set-biphase");
    assert("get-temperature"@.len() != "set-biphase"@.len());
    reveal_strlit("set-easy-optical-adjustment-control");
    assert("get-temperature"@.len() != "set-easy-optical-adjustment-control"@.len());
    reveal_strlit("set-easy-optical-adjustment-plus");
    assert("get-temperature"@.len() != "set-easy-optical-adjustment-plus"@.len());
    reveal_strlit("set-easy-optical-adjustment-minus");
    assert("get-temperature"@.len() != "set-easy-optical-adjustment-minus"@.len());
    reveal_strlit("set-easy-optical-adjustment-exit");
    assert("get-temperature"@.len() != "set-easy-optical-adjustment-exit"@.len());
    reveal_strlit("set-easy-biphase-adjustment-control");
    assert("get-temperature"@.len() != "set-easy-biphase-adjustment-control"@.len());
    reveal_strlit("set-easy-biphase-adjustment-plus");
    assert("get-temperature"@.len() != "set-easy-biphase-adjustment-plus"@.len());
    reveal_strlit("set-easy-biphase-adjustment-minus");
    assert("get-temperature"@.len() != "set-easy-biphase-adjustment-minus"@.len());
    reveal_strlit("set-easy-biphase-adjustment-exit");
    assert("get-temperature"@.len() != "set-easy-biphase-adjustment-exit"@.len());
    reveal_strlit("get-all-picture-quality");
    assert("get-temperature"@.len() != "get-all-picture-quality"@.len());
    reveal_strlit("set-all-picture-quality");
    assert("get-temperature"@.len() != "set-all-picture-quality"@.len());
    reveal_strlit("get-brightness");
    assert("get-temperature"@.len() != "get-brightness"@.len());
    reveal_strlit("set-brightness");
    assert("get-temperature"@.len() != "set-brightness"@.len());
    reveal_strlit("get-contrast");
    assert("get-temperature"@.len() != "get-contrast"@.len());
    reveal_strlit("set-contrast");
    assert("get-temperature"@.len() != "set-contrast"@.len());
    reveal_strlit("get-hue");
    assert("get-temperature"@.len() != "get-hue"@.len());
    reveal_strlit("set-hue");
    assert("get-temperature"@.len() != "set-hue"@.len());
    reveal_strlit("get-saturation");
    assert("get-temperature"@.len() != "get-saturation"@.len());
    reveal_strlit("set-saturation");
    assert("get-temperature"@.len() != "set-saturation"@.len());
    reveal_strlit("get-sharpness");
    assert("get-temperature"@.len() != "get-sharpness"@.len());
    reveal_strlit("set-sharpness");
    assert("get-temperature"@.len() != "set-sharpness"@.len());
    reveal_strlit("update-fw-image");
    assert("get-temperature"@[0] != "update-fw-image"@[0]);
    reveal_strlit("update-picture-data");
    assert("get-temperature"@.len() != "update-picture-data"@.len());
    reveal_strlit("division-transmission-update-fw-image");
    assert("get-temperature"@.len() != "division-transmission-update-fw-image"@.len());
    reveal_strlit("division-transmission-update-picture-data");
    assert("get-temperature"@.len() != "division-transmission-update-picture-data"@.len());
}

proof fn lemma_name_id_get_time()
    ensures
        spec_notify_command_id_from_name("get-time"@) == 0xA1,
{
    reveal_strlit("get-time");
    reveal_strlit("boot-completed");
    assert("get-time"@.len() != "boot-completed"@.len());
    reveal_strlit("start-input");
    assert("get-time"@.len() != "start-input"@.len());
    reveal_strlit("stop-input");
    assert("get-time"@.len() != "stop-input"@.len());
    reveal_strlit("mute-unmute-change-output");
    assert("get-time"@.len() != "mute-unmute-change-output"@.len());
    reveal_strlit("save-user-param");
    assert("get-time"@.len() != "save-user-param"@.len());
    reveal_strlit("initialize-user-param");
    assert("get-time"@.len() != "initialize-user-param"@.len());
    reveal_strlit("shutdown-reboot");
    assert("get-time"@.len() != "shutdown-reboot"@.len());
    reveal_strlit("stop-input-specially");
    assert("get-time"@.len() != "stop-input-specially"@.len());
    reveal_strlit("emergency");
    assert("get-time"@.len() != "emergency"@.len());
    reveal_strlit("temperature-emergency-and-recovery");
    assert("get-time"@.len() != "temperature-emergency-and-recovery"@.len());
    reveal_strlit("command-emergency");
    assert("get-time"@.len() != "command-emergency"@.len());
    reveal_strlit("get-video-output-position");
    assert("get-time"@.len() != "get-video-output-position"@.len());
    reveal_strlit("set-video-output-position");
    assert("get-time"@.len() != "set-video-output-position"@.len());
    reveal_strlit("get-optical-alignment");
    assert("get-time"@.len() != "get-optical-alignment"@.len());
    reveal_strlit("set-optical-alignment");
    assert("get-time"@.len() != "set-optical-alignment"@.len());
    reveal_strlit("get-biphase");
    assert("get-time"@.len() != "get-biphase"@.len());
    reveal_strlit("set-biphase");
    assert("get-time"@.len() != "set-biphase"@.len());
    reveal_strlit("set-easy-optical-adjustment-control");
    assert("get-time"@.len() != "set-easy-optical-adjustment-control"@.len());
    reveal_strlit("set-easy-optical-adjustment-plus");
    assert("get-time"@.len() != "set-easy-optical-adjustment-plus"@.len());
    reveal_strlit("set-easy-optical-adjustment-minus");
    assert("get-time"@.len() != "set-easy-optical-adjustment-minus"@.len());
    reveal_strlit("set-easy-optical-adjustment-exit");
    assert("get-time"@.len() != "set-easy-optical-adjustment-exit"@.len());
    reveal_strlit("set-easy-biphase-adjustment-control");
    assert("get-time"@.len() != "set-easy-biphase-adjustment-control"@.len());
    reveal_strlit("set-easy-biphase-adjustment-plus");
    assert("get-time"@.len() != "set-easy-biphase-adjustment-plus"@.len());
    reveal_strlit("set-easy-biphase-adjustment-minus");
    assert("get-time"@.len() != "set-easy-biphase-adjustment-minus"@.len());
    reveal_strlit("set-easy-biphase-adjustment-exit");
    assert("get-time"@.len() != "set-easy-biphase-adjustment-exit"@.len());
    reveal_strlit("get-all-picture-quality");
    assert("get-time"@.len() != "get-all-picture-quality"@.len());
    reveal_strlit("set-all-picture-quality");
    assert("get-time"@.len() != "set-all-picture-quality"@.len());
    reveal_strlit("get-brightness");
    assert("get-time"@.len() != "get-brightness"@.len());
    reveal_strlit("set-brightness");
    assert("get-time"@.len() != "set-brightness"@.len());
    reveal_strlit("get-contrast");
    assert("get-time"@.len() != "get-contrast"@.len());
    reveal_strlit("set-contrast");
    assert("get-time"@.len() != "set-contrast"@.len());
    reveal_strlit("get-hue");
    assert("get-time"@.len() != "get-hue"@.len());
    reveal_strlit("set-hue");
    assert("get-time"@.len() != "set-hue"@.len());
    reveal_strlit("get-saturation");
    assert("get-time"@.len() != "get-saturation"@.len());
    reveal_strlit("set-saturation");
    assert("get-time"@.len() != "set-saturation"@.len());
    reveal_strlit("get-sharpness");
    assert("get-time"@.len() != "get-sharpness"@.len());
    reveal_strlit("set-sharpness");
    assert("get-time"@.len() != "set-sharpness"@.len());
    reveal_strlit("update-fw-image");
    assert("get-time"@.len() != "update-fw-image"@.len());
    reveal_strlit("update-picture-data");
    assert("get-time"@.len() != "update-picture-data"@.len());
    reveal_strlit("division-transmission-update-fw-image");
    assert("get-time"@.len() != "division-transmission-update-fw-image"@.len());
    reveal_strlit("division-transmission-update-picture-data");
    assert("get-time"@.len() != "division-transmission-update-picture-data"@.len());
    reveal_strlit("get-temperature");
    assert("get-time"@.len() != "get-temperature"@.len());
}

proof fn lemma_name_id_get_version()
    ensures
        spec_notify_command_id_from_name("get-version"@) == 0xA2,
{
    reveal_strlit("get-version");
    reveal_strlit("boot-completed");
    assert("get-version"@.len() != "boot-completed"@.len());
    reveal_strlit("start-input");
    assert("get-version"@[0] != "start-input"@[0]);
    reveal_strlit("stop-input");
    assert("get-version"@.len() != "stop-input"@.len());
    reveal_strlit("mute-unmute-change-output");
    assert("get-version"@.len() != "mute-unmute-change-output"@.len());
    reveal_strlit("save-user-param");
    assert("get-version"@.len() != "save-user-param"@.len());
    reveal_strlit("initialize-user-param");
    assert("get-version"@.len() != "initialize-user-param"@.len());
    reveal_strlit("shutdown-reboot");
    assert("get-version"@.len() != "shutdown-reboot"@.len());
    reveal_strlit("stop-input-specially");
    assert("get-version"@.len() != "stop-input-specially"@.len());
    reveal_strlit("emergency");
    assert("get-version"@.len() != "emergency"@.len());
    reveal_strlit("temperature-emergency-and-recovery");
    assert("get-version"@.len() != "temperature-emergency-and-recovery"@.len());
    reveal_strlit("command-emergency");
    assert("get-version"@.len() != "command-emergency"@.len());
    reveal_strlit("get-video-output-position");
    assert("get-version"@.len() != "get-video-output-position"@.len());
    reveal_strlit("set-video-output-position");
    assert("get-version"@.len() != "set-video-output-position"@.len());
    reveal_strlit("get-optical-alignment");
    assert("get-version"@.len() != "get-optical-alignment"@.len());
    reveal_strlit("set-optical-alignment");
    assert("get-version"@.len() != "set-optical-alignment"@.len());
    reveal_strlit("get-biphase");
    assert("get-version"@[4] != "get-biphase"@[4]);
    reveal_strlit("set-biphase");
    assert("get-version"@[0] != "set-biphase"@[0]);
    reveal_strlit("set-easy-optical-adjustment-control");
    assert("get-version"@.len() != "set-easy-optical-adjustment-control"@.len());
    reveal_strlit("set-easy-optical-adjustment-plus");
    assert("get-version"@.len() != "set-easy-optical-adjustment-plus"@.len());
    reveal_strlit("set-easy-optical-adjustment-minus");
    assert("get-version"@.len() != "set-easy-optical-adjustment-minus"@.len());
    reveal_strlit("set-easy-optical-adjustment-exit");
    assert("get-version"@.len() != "set-easy-optical-adjustment-exit"@.len());
    reveal_strlit("set-easy-biphase-adjustment-control");
    assert("get-version"@.len() != "set-easy-biphase-adjustment-control"@.len());
    reveal_strlit("set-easy-biphase-adjustment-plus");
    assert("get-version"@.len() != "set-easy-biphase-adjustment-plus"@.len());
    reveal_strlit("set-easy-biphase-adjustment-minus");
    assert("get-version"@.len() != "set-easy-biphase-adjustment-minus"@.len());
    reveal_strlit("set-easy-biphase-adjustment-exit");
    assert("get-version"@.len() != "set-easy-biphase-adjustment-exit"@.len());
    reveal_strlit("get-all-picture-quality");
    assert("get-version"@.len() != "get-all-picture-quality"@.len());
    reveal_strlit("set-all-picture-quality");
    assert("get-version"@.len() != "set-all-picture-quality"@.len());
    reveal_strlit("get-brightness");
    assert("get-version"@.len() != "get-brightness"@.len());
    reveal_strlit("set-brightness");
    assert("get-version"@.len() != "set-brightness"@.len());
    reveal_strlit("get-contrast");
    assert("get-version"@.len() != "get-contrast"@.len());
    reveal_strlit("set-contrast");
    assert("get-version"@.len() != "set-contrast"@.len());
    reveal_strlit("get-hue");
    assert("get-version"@.len() != "get-hue"@.len());
    reveal_strlit("set-hue");
    assert("get-version"@.len() != "set-hue"@.len());
    reveal_strlit("get-saturation");
    assert("get-version"@.len() != "get-saturation"@.len());
    reveal_strlit("set-saturation");
    assert("get-version"@.len() != "set-saturation"@.len());
    reveal_strlit("get-sharpness");
    assert("get-version"@.len() != "get-sharpness"@.len());
    reveal_strlit("set-sharpness");
    assert("get-version"@.len() != "set-sharpness"@.len());
    reveal_strlit("update-fw-image");
    assert("get-version"@.len() != "update-fw-image"@.len());
    reveal_strlit("update-picture-data");
    assert("get-version"@.len() != "update-picture-data"@.len());
    reveal_strlit("division-transmission-update-fw-image");
    assert("get-version"@.len() != "division-transmission-update-fw-image"@.len());
    reveal_strlit("division-transmission-update-picture-data");
    assert("get-version"@.len() != "division-transmission-update-picture-data"@.len());
    reveal_strlit("get-temperature");
    assert("get-version"@.len() != "get-temperature"@.len());
    reveal_strlit("get-time");
    assert("get-version"@.len() != "get-time"@.len());
}

proof fn lemma_name_id_output_test_picture()
    ensures
        spec_notify_command_id_from_name("output-test-picture"@) == 0xA3,
{
    reveal_strlit("output-test-picture");
    reveal_strlit("boot-completed");
    assert("output-test-picture"@.len() != "boot-completed"@.len());
    reveal_strlit("start-input");
    assert("output-test-picture"@.len() != "start-input"@.len());
    reveal_strlit("stop-input");
    assert("output-test-picture"@.len() != "stop-input"@.len());
    reveal_strlit("mute-unmute-change-output");
    assert("output-test-picture"@.len() != "mute-unmute-change-output"@.len());
    reveal_strlit("save-user-param");
    assert("output-test-picture"@.len() != "save-user-param"@.len());
    reveal_strlit("initialize-user-param");
    assert("output-test-picture"@.len() != "initialize-user-param"@.len());
    reveal_strlit("shutdown-reboot");
    assert("output-test-picture"@.len() != "shutdown-reboot"@.len());
    reveal_strlit("stop-input-specially");
    assert("output-test-picture"@.len() != "stop-input-specially"@.len());
    reveal_strlit("emergency");
    assert("output-test-picture"@.len() != "emergency"@.len());
    reveal_strlit("temperature-emergency-and-recovery");
    assert("output-test-picture"@.len() != "temperature-emergency-and-recovery"@.len());
    reveal_strlit("command-emergency");
    assert("output-test-picture"@.len() != "command-emergency"@.len());
    reveal_strlit("get-video-output-position");
    assert("output-test-picture"@.len() != "get-video-output-position"@.len());
    reveal_strlit("set-video-output-position");
    assert("output-test-picture"@.len() != "set-video-output-position"@.len());
    reveal_strlit("get-optical-alignment");
    assert("output-test-picture"@.len() != "get-optical-alignment"@.len());
    reveal_strlit("set-optical-alignment");
    assert("output-test-picture"@.len() != "set-optical-alignment"@.len());
    reveal_strlit("get-biphase");
    assert("output-test-picture"@.len() != "get-biphase"@.len());
    reveal_strlit("set-biphase");
    assert("output-test-picture"@.len() != "set-biphase"@.len());
    reveal_strlit("set-easy-optical-adjustment-control");
    assert("output-test-picture"@.len() != "set-easy-optical-adjustment-control"@.len());
    reveal_strlit("set-easy-optical-adjustment-plus");
    assert("output-test-picture"@.len() != "set-easy-optical-adjustment-plus"@.len());
    reveal_strlit("set-easy-optical-adjustment-minus");
    assert("output-test-picture"@.len() != "set-easy-optical-adjustment-minus"@.len());
    reveal_strlit("set-easy-optical-adjustment-exit");
    assert("output-test-picture"@.len() != "set-easy-optical-adjustment-exit"@.len());
    reveal_strlit("set-easy-biphase-adjustment-control");
    assert("output-test-picture"@.len() != "set-easy-biphase-adjustment-control"@.len());
    reveal_strlit("set-easy-biphase-adjustment-plus");
    assert("output-test-picture"@.len() != "set-easy-biphase-adjustment-plus"@.len());
    reveal_strlit("set-easy-biphase-adjustment-minus");
    assert("output-test-picture"@.len() != "set-easy-biphase-adjustment-minus"@.len());
    reveal_strlit("set-easy-biphase-adjustment-exit");
    assert("output-test-picture"@.len() != "set-easy-biphase-adjustment-exit"@.len());
    reveal_strlit("get-all-picture-quality");
    assert("output-test-picture"@.len() != "get-all-picture-quality"@.len());
    reveal_strlit("set-all-picture-quality");
    assert("output-test-picture"@.len() != "set-all-picture-quality"@.len());
    reveal_strlit("get-brightness");
    assert("output-test-picture"@.len() != "get-brightness"@.len());
    reveal_strlit("set-brightness");
    assert("output-test-picture"@.len() != "set-brightness"@.len());
    reveal_strlit("get-contrast");
    assert("output-test-picture"@.len() != "get-contrast"@.len());
    reveal_strlit("set-contrast");
    assert("output-test-picture"@.len() != "set-contrast"@.len());
    reveal_strlit("get-hue");
    assert("output-test-picture"@.len() != "get-hue"@.len());
    reveal_strlit("set-hue");
    assert("output-test-picture"@.len() != "set-hue"@.len());
    reveal_strlit("get-saturation");
    assert("output-test-picture"@.len() != "get-saturation"@.len());
    reveal_strlit("set-saturation");
    assert("output-test-picture"@.len() != "set-saturation"@.len());
    reveal_strlit("get-sharpness");
    assert("output-test-picture"@.len() != "get-sharpness"@.len());
    reveal_strlit("set-sharpness");
    assert("output-test-picture"@.len() != "set-sharpness"@.len());
    reveal_strlit("update-fw-image");
    assert("output-test-picture"@.len() != "update-fw-image"@.len());
    reveal_strlit("update-picture-data");
    assert("output-test-picture"@[0] != "update-picture-data"@[0]);
    reveal_strlit("division-transmission-update-fw-image");
    assert("output-test-picture"@.len() != "division-transmission-update-fw-image"@.len());
    reveal_strlit("division-transmission-update-picture-data");
    assert("output-test-picture"@.len() != "division-transmission-update-picture-data"@.len());
    reveal_strlit("get-temperature");
    assert("output-test-picture"@.len() != "get-temperature"@.len());
    reveal_strlit("get-time");
    assert("output-test-picture"@.len() != "get-time"@.len());
    reveal_strlit("get-version");
    assert("output-test-picture"@.len() != "get-version"@.len());
}

proof fn lemma_name_id_get_lot_number()
    ensures
        spec_notify_command_id_from_name("get-lot-number"@) == 0xB2,
{
    reveal_strlit("get-lot-number");
    reveal_strlit("boot-completed");
    assert("get-lot-number"@[0] != "boot-completed"@[0]);
    reveal_strlit("start-input");
    assert("get-lot-number"@.len() != "start-input"@.len());
    reveal_strlit("stop-input");
    assert("get-lot-number"@.len() != "stop-input"@.len());
    reveal_strlit("mute-unmute-change-output");
    assert("get-lot-number"@.len() != "mute-unmute-change-output"@.len());
    reveal_strlit("save-user-param");
    assert("get-lot-number"@.len() != "save-user-param"@.len());
    reveal_strlit("initialize-user-param");
    assert("get-lot-number"@.len() != "initialize-user-param"@.len());
    reveal_strlit("shutdown-reboot");
    assert("get-lot-number"@.len() != "shutdown-reboot"@.len());
    reveal_strlit("stop-input-specially");
    assert("get-lot-number"@.len() != "stop-input-specially"@.len());
    reveal_strlit("emergency");
    assert("get-lot-number"@.len() != "emergency"@.len());
    reveal_strlit("temperature-emergency-and-recovery");
    assert("get-lot-number"@.len() != "temperature-emergency-and-recovery"@.len());
    reveal_strlit("command-emergency");
    assert("get-lot-number"@.len() != "command-emergency"@.len());
    reveal_strlit("get-video-output-position");
    assert("get-lot-number"@.len() != "get-video-output-position"@.len());
    reveal_strlit("set-video-output-position");
    assert("get-lot-number"@.len() != "set-video-output-position"@.len());
    reveal_strlit("get-optical-alignment");
    assert("get-lot-number"@.len() != "get-optical-alignment"@.len());
    reveal_strlit("set-optical-alignment");
    assert("get-lot-number"@.len() != "set-optical-alignment"@.len());
    reveal_strlit("get-biphase");
    assert("get-lot-number"@.len() != "get-biphase"@.len());
    reveal_strlit("set-biphase");
    assert("get-lot-number"@.len() != "set-biphase"@.len());
    reveal_strlit("set-easy-optical-adjustment-control");
    assert("get-lot-number"@.len() != "set-easy-optical-adjustment-control"@.len());
    reveal_strlit("set-easy-optical-adjustment-plus");
    assert("get-lot-number"@.len() != "set-easy-optical-adjustment-plus"@.len());
    reveal_strlit("set-easy-optical-adjustment-minus");
    assert("get-lot-number"@.len() != "set-easy-optical-adjustment-minus"@.len());
    reveal_strlit("set-easy-optical-adjustment-exit");
    assert("get-lot-number"@.len() != "set-easy-optical-adjustment-exit"@.len());
    reveal_strlit("set-easy-biphase-adjustment-control");
    assert("get-lot-number"@.len() != "set-easy-biphase-adjustment-control"@.len());
    reveal_strlit("set-easy-biphase-adjustment-plus");
    assert("get-lot-number"@.len() != "set-easy-biphase-adjustment-plus"@.len());
    reveal_strlit("set-easy-biphase-adjustment-minus");
    assert("get-lot-number"@.len() != "set-easy-biphase-adjustment-minus"@.len());
    reveal_strlit("set-easy-biphase-adjustment-exit");
    assert("get-lot-number"@.len() != "set-easy-biphase-adjustment-exit"@.len());
    reveal_strlit("get-all-picture-quality");
    assert("get-lot-number"@.len() != "get-all-picture-quality"@.len());
    reveal_strlit("set-all-picture-quality");
    assert("get-lot-number"@.len() != "set-all-picture-quality"@.len());
    reveal_strlit("get-brightness");
    assert("get-lot-number"@[4] != "get-brightness"@[4]);
    reveal_strlit("set-brightness");
    assert("get-lot-number"@[0] != "set-brightness"@[0]);
    reveal_strlit("get-contrast");
    assert("get-lot-number"@.len() != "get-contrast"@.len());
    reveal_strlit("set-contrast");
    assert("get-lot-number"@.len() != "set-contrast"@.len());
    reveal_strlit("get-hue");
    assert("get-lot-number"@.len() != "get-hue"@.len());
    reveal_strlit("set-hue");
    assert("get-lot-number"@.len() != "set-hue"@.len());
    reveal_strlit("get-saturation");
    assert("get-lot-number"@[4] != "get-saturation"@[4]);
    reveal_strlit("set-saturation");
    assert("get-lot-number"@[0] != "set-saturation"@[0]);
    reveal_strlit("get-sharpness");
    assert("get-lot-number"@.len() != "get-sharpness"@.len());
    reveal_strlit("set-sharpness");
    assert("get-lot-number"@.len() != "set-sharpness"@.len());
    reveal_strlit("update-fw-image");
    assert("get-lot-number"@.len() != "update-fw-image"@.len());
    reveal_strlit("update-picture-data");
    assert("get-lot-number"@.len() != "update-picture-data"@.len());
    reveal_strlit("division-transmission-update-fw-image");
    assert("get-lot-number"@.len() != "division-transmission-update-fw-image"@.len());
    reveal_strlit("division-transmission-update-picture-data");
    assert("get-lot-number"@.len() != "division-transmission-update-picture-data"@.len());
    reveal_strlit("get-temperature");
    assert("get-lot-number"@.len() != "get-temperature"@.len());
    reveal_strlit("get-time");
    assert("get-lot-number"@.len() != "get-time"@.len());
    reveal_strlit("get-version");
    assert("get-lot-number"@.len() != "get-version"@.len());
    reveal_strlit("output-test-picture");
    assert("get-lot-number"@.len() != "output-test-picture"@.len());
}

proof fn lemma_name_id_get_serial_number()
    ensures
        spec_notify_command_id_from_name("get-serial-number"@) == 0xB4,
{
    reveal_strlit("get-serial-number");
    reveal_strlit("boot-completed");
    assert("get-serial-number"@.len() != "boot-completed"@.len());
    reveal_strlit("start-input");
    assert("get-serial-number"@.len() != "start-input"@.len());
    reveal_strlit("stop-input");
    assert("get-serial-number"@.len() != "stop-input"@.len());
    reveal_strlit("mute-unmute-change-output");
    assert("get-serial-number"@.len() != "mute-unmute-change-output"@.len());
    reveal_strlit("save-user-param");
    assert("get-serial-number"@.len() != "save-user-param"@.len());
    reveal_strlit("initialize-user-param");
    assert("get-serial-number"@.len() != "initialize-user-param"@.len());
    reveal_strlit("shutdown-reboot");
    assert("get-serial-number"@.len() != "shutdown-reboot"@.len());
    reveal_strlit("stop-input-specially");
    assert("get-serial-number"@.len() != "stop-input-specially"@.len());
    reveal_strlit("emergency");
    assert("get-serial-number"@.len() != "emergency"@.len());
    reveal_strlit("temperature-emergency-and-recovery");
    assert("get-serial-number"@.len() != "temperature-emergency-and-recovery"@.len());
    reveal_strlit("command-emergency");
    assert("get-serial-number"@[0] != "command-emergency"@[0]);
    reveal_strlit("get-video-output-position");
    assert("get-serial-number"@.len() != "get-video-output-position"@.len());
    reveal_strlit("set-video-output-position");
    assert("get-serial-number"@.len() != "set-video-output-position"@.len());
    reveal_strlit("get-optical-alignment");
    assert("get-serial-number"@.len() != "get-optical-alignment"@.len());
    reveal_strlit("set-optical-alignment");
    assert("get-serial-number"@.len() != "set-optical-alignment"@.len());
    reveal_strlit("get-biphase");
    assert("get-serial-number"@.len() != "get-biphase"@.len());
    reveal_strlit("set-biphase");
    assert("get-serial-number"@.len() != "set-biphase"@.len());
    reveal_strlit("set-easy-optical-adjustment-control");
    assert("get-serial-number"@.len() != "set-easy-optical-adjustment-control"@.len());
    reveal_strlit("set-easy-optical-adjustment-plus");
    assert("get-serial-number"@.len() != "set-easy-optical-adjustment-plus"@.len());
    reveal_strlit("set-easy-optical-adjustment-minus");
    assert("get-serial-number"@.len() != "set-easy-optical-adjustment-minus"@.len());
    reveal_strlit("set-easy-optical-adjustment-exit");
    assert("get-serial-number"@.len() != "set-easy-optical-adjustment-exit"@.len());
    reveal_strlit("set-easy-biphase-adjustment-control");
    assert("get-serial-number"@.len() != "set-easy-biphase-adjustment-control"@.len());
    reveal_strlit("set-easy-biphase-adjustment-plus");
    assert("get-serial-number"@.len() != "set-easy-biphase-adjustment-plus"@.len());
    reveal_strlit("set-easy-biphase-adjustment-minus");
    assert("get-serial-number"@.len() != "set-easy-biphase-adjustment-minus"@.len());
    reveal_strlit("set-easy-biphase-adjustment-exit");
    assert("get-serial-number"@.len() != "set-easy-biphase-adjustment-exit"@.len());
    reveal_strlit("get-all-picture-quality");
    assert("get-serial-number"@.len() != "get-all-picture-quality"@.len());
    reveal_strlit("set-all-picture-quality");
    assert("get-serial-number"@.len() != "set-all-picture-quality"@.len());
    reveal_strlit("get-brightness");
    assert("get-serial-number"@.len() != "get-brightness"@.len());
    reveal_strlit("set-brightness");
    assert("get-serial-number"@.len() != "set-brightness"@.len());
    reveal_strlit("get-contrast");
    assert("get-serial-number"@.len() != "get-contrast"@.len());
    reveal_strlit("set-contrast");
    assert("get-serial-number"@.len() != "set-contrast"@.len());
    reveal_strlit("get-hue");
    assert("get-serial-number"@.len() != "get-hue"@.len());
    reveal_strlit("set-hue");
    assert("get-serial-number"@.len() != "set-hue"@.len());
    reveal_strlit("get-saturation");
    assert("get-serial-number"@.len() != "get-saturation"@.len());
    reveal_strlit("set-saturation");
    assert("get-serial-number"@.len() != "set-saturation"@.len());
    reveal_strlit("get-sharpness");
    assert("get-serial-number"@.len() != "get-sharpness"@.len());
    reveal_strlit("set-sharpness");
    assert("get-serial-number"@.len() != "set-sharpness"@.len());
    reveal_strlit("update-fw-image");
    assert("get-serial-number"@.len() != "update-fw-image"@.len());
    reveal_strlit("update-picture-data");
    assert("get-serial-number"@.len() != "update-picture-data"@.len());
    reveal_strlit("division-transmission-update-fw-image");
    assert("get-serial-number"@.len() != "division-transmission-update-fw-image"@.len());
    reveal_strlit("division-transmission-update-picture-data");
    assert("get-serial-number"@.len() != "division-transmission-update-picture-data"@.len());
    reveal_strlit("get-temperature");
    assert("get-serial-number"@.len() != "get-temperature"@.len());
    reveal_strlit("get-time");
    assert("get-serial-number"@.len() != "get-time"@.len());
    reveal_strlit("get-version");
    assert("get-serial-number"@.len() != "get-version"@.len());
    reveal_strlit("output-test-picture");
    assert("get-serial-number"@.len() != "output-test-picture"@.len());
    reveal_strlit("get-lot-number");
    assert("get-serial-number"@.len() != "get-lot-number"@.len());
}

/// The `command_id` that the JSON reply of a notify carries is the notify's command id.
pub proof fn lemma_json_command_id(notify: CXN0102Notify)
    ensures
        spec_notify_command_id_from_name(spec_notify_type_name(notify)) == spec_notify_command_id(
            notify,
        ),
{
    match notify {
        CXN0102Notify::BootCompleted(_) => lemma_name_id_boot_completed(),
        CXN0102Notify::StartInput(_) => lemma_name_id_start_input(),
        CXN0102Notify::StopInput(_) => lemma_name_id_stop_input(),
        CXN0102Notify::StopInputSpecially(_) => lemma_name_id_stop_input_specially(),
        CXN0102Notify::MuteUnmuteChangeOutput(_) => lemma_name_id_mute_unmute_change_output(),
        CXN0102Notify::SaveUserParam(_) => lemma_name_id_save_user_param(),
        CXN0102Notify::InitializeUserParam(_) => lemma_name_id_initialize_user_param(),
        CXN0102Notify::ShutdownReboot(_) => lemma_name_id_shutdown_reboot(),
        CXN0102Notify::GetVideoOutputPosition(_) => lemma_name_id_get_video_output_position(),
        CXN0102Notify::SetVideoOutputPosition(_) => lemma_name_id_set_video_output_position(),
        CXN0102Notify::GetOpticalAlignment(_) => lemma_name_id_get_optical_alignment(),
        CXN0102Notify::SetOpticalAlignment(_) => lemma_name_id_set_optical_alignment(),
        CXN0102Notify::GetBiphase(_) => lemma_name_id_get_biphase(),
        CXN0102Notify::SetBiphase(_) => lemma_name_id_set_biphase(),
        CXN0102Notify::EasyOpticalAdjustmentControl(_) => lemma_name_id_set_easy_optical_adjustment_control(),
        CXN0102Notify::EasyOpticalAdjustmentPlus(_) => lemma_name_id_set_easy_optical_adjustment_plus(),
        CXN0102Notify::EasyOpticalAdjustmentMinus(_) => lemma_name_id_set_easy_optical_adjustment_minus(),
        CXN0102Notify::EasyOpticalAdjustmentExit(_) => lemma_name_id_set_easy_optical_adjustment_exit(),
        CXN0102Notify::EasyBiphaseAdjustmentControl(_) => lemma_name_id_set_easy_biphase_adjustment_control(),
        CXN0102Notify::EasyBiphaseAdjustmentPlus(_) => lemma_name_id_set_easy_biphase_adjustment_plus(),
        CXN0102Notify::EasyBiphaseAdjustmentMinus(_) => lemma_name_id_set_easy_biphase_adjustment_minus(),
        CXN0102Notify::EasyBiphaseAdjustmentExit(_) => lemma_name_id_set_easy_biphase_adjustment_exit(),
        CXN0102Notify::GetAllPictureQuality(_) => lemma_name_id_get_all_picture_quality(),
        CXN0102Notify::SetAllPictureQuality(_) => lemma_name_id_set_all_picture_quality(),
        CXN0102Notify::GetBrightness(_) => lemma_name_id_get_brightness(),
        CXN0102Notify::SetBrightness(_) => lemma_name_id_set_brightness(),
        CXN0102Notify::GetContrast(_) => lemma_name_id_get_contrast(),
        CXN0102Notify::SetContrast(_) => lemma_name_id_set_contrast(),
        CXN0102Notify::GetHue(_) => lemma_name_id_get_hue(),
        CXN0102Notify::SetHue(_) => lemma_name_id_set_hue(),
        CXN0102Notify::GetSaturation(_) => lemma_name_id_get_saturation(),
        CXN0102Notify::SetSaturation(_) => lemma_name_id_set_saturation(),
        CXN0102Notify::GetSharpness(_) => lemma_name_id_get_sharpness(),
        CXN0102Notify::SetSharpness(_) => lemma_name_id_set_sharpness(),
        CXN0102Notify::UpdateFwImage(_) => lemma_name_id_update_fw_image(),
        CXN0102Notify::UpdatePictureData(_) => lemma_name_id_update_picture_data(),
        CXN0102Notify::DivisionTransmissionUpdateFwImage(_) => lemma_name_id_division_transmission_update_fw_image(),
        CXN0102Notify::DivisionTransmissionUpdatePictureData(_) => lemma_name_id_division_transmission_update_picture_data(),
        CXN0102Notify::GetTemperature(_) => lemma_name_id_get_temperature(),
        CXN0102Notify::GetTime(_) => lemma_name_id_get_time(),
        CXN0102Notify::GetVersion(_) => lemma_name_id_get_version(),
        CXN0102Notify::OutputTestPicture(_) => lemma_name_id_output_test_picture(),
        CXN0102Notify::GetLotNumber(_) => lemma_name_id_get_lot_number(),
        CXN0102Notify::GetSerialNumber(_) => lemma_name_id_get_serial_number(),
        CXN0102Notify::Emergency(_) => lemma_name_id_emergency(),
        CXN0102Notify::TemperatureEmergencyAndRecovery(_) => lemma_name_id_temperature_emergency_and_recovery(),
        CXN0102Notify::CommandEmergency(_) => lemma_name_id_command_emergency(),
    }
}

/// A join of at least two items starts with the first two and the separator between them.
proof fn lemma_join_starts_with_two(items: Seq<Seq<char>>, sep: Seq<char>)
    requires
        items.len() >= 2,
    ensures
        ({
            let p = items[0] + sep + items[1];
            p.len() <= join(items, sep).len() && join(items, sep).take(p.len() as int) == p
        }),
    decreases items.len(),
{
    let p = items[0] + sep + items[1];
    if items.len() == 2 {
        assert(join(items.drop_last(), sep) == items[0]);
        assert(join(items, sep) =~= p);
        assert(join(items, sep).take(p.len() as int) =~= p);
    } else {
        let d = items.drop_last();
        lemma_join_starts_with_two(d, sep);
        assert(d[0] == items[0] && d[1] == items[1]);
        let whole = join(items, sep);
        assert(whole == join(d, sep) + sep + items.last());
        assert(whole.take(p.len() as int) =~= join(d, sep).take(p.len() as int));
    }
}

/// An object made from a type name leads with the `command_id` and `type` fields.
proof fn lemma_object_leads_with_id_and_type(name: Seq<char>, fields: Seq<Seq<char>>)
    ensures
        ({
            let p = "{\"command_id\":"@ + dec_int(spec_notify_command_id_from_name(name) as int)
                + ",\"type\":"@ + string_json_text(name);
            let j = object_text(name, fields);
            p.len() < j.len() && j.take(p.len() as int) == p && j.last() == '}'
        }),
{
    reveal_strlit("{\"command_id\":");
    reveal_strlit(",\"type\":");
    reveal_strlit("command_id");
    reveal_strlit("type");
    reveal_strlit(",");
    let id_text = dec_int(spec_notify_command_id_from_name(name) as int);
    let f1 = field_json_text("command_id"@, id_text);
    let f2 = field_json_text("type"@, string_json_text(name));
    let items = seq![f1, f2] + fields;
    assert(items[0] == f1 && items[1] == f2);
    lemma_join_starts_with_two(items, ","@);
    assert(json_escaped("command_id"@) =~= "command_id"@) by {
        reveal_with_fuel(json_escaped, 11);
    }
    assert(json_escaped("type"@) =~= "type"@) by {
        reveal_with_fuel(json_escaped, 5);
    }
    let inner = join(items, ","@);
    let j = object_text(name, fields);
    reveal(object_text);
    assert(j == seq!['{'] + inner + seq!['}']);
    let p = "{\"command_id\":"@ + id_text + ",\"type\":"@ + string_json_text(name);
    let q = f1 + ","@ + f2;
    assert(p =~= seq!['{'] + q);
    assert(j.take(p.len() as int) =~= seq!['{'] + inner.take(q.len() as int));
}

/// The JSON of every notify is one object whose first field is `command_id`, holding the
/// notify's command id in decimal, and whose second field is `type`, holding its type name.
pub proof fn lemma_notify_json_leads_with_id_and_type(notify: CXN0102Notify)
    ensures
        ({
            let p = "{\"command_id\":"@ + dec_int(spec_notify_command_id(notify) as int)
                + ",\"type\":"@ + string_json_text(spec_notify_type_name(notify));
            let j = spec_notify_json(notify);
            p.len() < j.len() && j.take(p.len() as int) == p && j.last() == '}'
        }),
{
    lemma_json_command_id(notify);
    lemma_object_leads_with_id_and_type(spec_notify_type_name(notify), spec_notify_fields(notify));
}


// ---------------------------------------------------------------------------
// Which member holds which value
// ---------------------------------------------------------------------------

/// In the JSON of a get-hue notify, after the result, the member named `hue_u` holds hue U
/// and the member named `hue_v` holds hue V.
pub proof fn lemma_get_hue_json(n: GetHueNotify)
    ensures
        spec_notify_json(CXN0102Notify::GetHue(n)) == object_text(
            "get-hue"@,
            seq![
                field_json_text("result"@, string_json_text(n.result.spec_debug_text())),
                field_json_text("hue_u"@, dec_int(n.hue_u as int)),
                field_json_text("hue_v"@, dec_int(n.hue_v as int)),
            ],
        ),
{
}

/// In the JSON of a get-saturation notify, after the result, the member named `saturation_u`
/// holds saturation U and the member named `saturation_v` holds saturation V.
pub proof fn lemma_get_saturation_json(n: GetSaturationNotify)
    ensures
        spec_notify_json(CXN0102Notify::GetSaturation(n)) == object_text(
            "get-saturation"@,
            seq![
                field_json_text("result"@, string_json_text(n.result.spec_debug_text())),
                field_json_text("saturation_u"@, dec_int(n.saturation_u as int)),
                field_json_text("saturation_v"@, dec_int(n.saturation_v as int)),
            ],
        ),
{
}

/// In the JSON of a get-temperature notify, after the result, each temperature is held by the
/// member of the same name: module, mute threshold, then system stop threshold.
pub proof fn lemma_get_temperature_json(n: GetTemperatureNotify)
    ensures
        spec_notify_json(CXN0102Notify::GetTemperature(n)) == object_text(
            "get-temperature"@,
            seq![
                field_json_text("result"@, string_json_text(n.result.spec_debug_text())),
                field_json_text("module_temperature"@, dec_int(n.module_temperature as int)),
                field_json_text("mute_threshold_temperature"@, dec_int(n.mute_threshold_temperature as int)),
                field_json_text("system_stop_threshold_temperature"@, dec_int(n.system_stop_threshold_temperature as int)),
            ],
        ),
{
}

/// In the JSON of a get-video-output-position notify, after the result, the member named
/// `pan` holds the pan, `tilt` the tilt and `flip` the name of the flip.
pub proof fn lemma_get_video_output_position_json(n: GetVideoOutputPositionNotify)
    ensures
        spec_notify_json(CXN0102Notify::GetVideoOutputPosition(n)) == object_text(
            "get-video-output-position"@,
            seq![
                field_json_text("result"@, string_json_text(n.result.spec_debug_text())),
                field_json_text("pan"@, dec_int(n.pan.0 as int)),
                field_json_text("tilt"@, dec_int(n.tilt.0 as int)),
                field_json_text("flip"@, string_json_text(n.flip.spec_debug_text())),
            ],
        ),
{
}

/// In the JSON of a get-all-picture-quality notify, after the result, the member named
/// `picture_quality` holds the object of the settings (read back member by member by
/// `lemma_picture_quality_json_read_back`).
pub proof fn lemma_get_all_picture_quality_json(n: GetAllPictureQualityNotify)
    ensures
        spec_notify_json(CXN0102Notify::GetAllPictureQuality(n)) == object_text(
            "get-all-picture-quality"@,
            seq![
                field_json_text("result"@, string_json_text(n.result.spec_debug_text())),
                field_json_text("picture_quality"@, picture_quality_json_text(n.picture_quality)),
            ],
        ),
{
}

/// In the JSON of a get-optical-alignment notify, after the result, the member named
/// `alignment` holds the object of the alignment (read back member by member by
/// `lemma_alignment_json_read_back`).
pub proof fn lemma_get_optical_alignment_json(n: GetOpticalAlignmentNotify)
    ensures
        spec_notify_json(CXN0102Notify::GetOpticalAlignment(n)) == object_text(
            "get-optical-alignment"@,
            seq![
                field_json_text("result"@, string_json_text(n.result.spec_debug_text())),
                field_json_text("alignment"@, alignment_json_text(n.alignment)),
            ],
        ),
{
}

// ---------------------------------------------------------------------------
// Nested objects, read back by the library's own JSON parser
// ---------------------------------------------------------------------------

/// A member name made of lower-case letters, digits and underscores only.
spec fn plain_key(k: Seq<char>) -> bool {
    forall|i: int|
        0 <= i < k.len() ==> ('a' <= #[trigger] k[i] && k[i] <= 'z') || ('0' <= k[i] && k[i]
            <= '9') || k[i] == '_'
}

/// Such a name needs no escaping inside a JSON string.
proof fn lemma_plain_key_escaped(k: Seq<char>)
    requires
        plain_key(k),
    ensures
        json_escaped(k) == k,
    decreases k.len(),
{
    if k.len() > 0 {
        let init = k.drop_last();
        assert forall|i: int| 0 <= i < init.len() implies ('a' <= #[trigger] init[i] && init[i]
            <= 'z') || ('0' <= init[i] && init[i] <= '9') || init[i] == '_' by {
            assert(init[i] == k[i]);
        }
        lemma_plain_key_escaped(init);
        let c = k.last();
        assert(k[k.len() - 1] == c);
        assert(escape_char(c) == seq![c]);
        assert(init + seq![c] =~= k);
    }
}

/// The text written before a member's value: a separator, the quoted name and a colon.
proof fn lemma_member_key(lit: Seq<char>, sep: char, k: Seq<char>)
    requires
        plain_key(k),
        lit =~= seq![sep, '"'] + k + seq!['"', ':'],
    ensures
        lit == seq![sep] + string_json_text(k) + seq![':'],
{
    lemma_plain_key_escaped(k);
    assert(lit =~= seq![sep] + string_json_text(k) + seq![':']);
}

/// The first member of an object, after the opening brace.
proof fn lemma_members_prefix_first(ps: Seq<(Seq<char>, Seq<char>)>, lit: Seq<char>)
    requires
        ps.len() >= 1,
        lit == seq!['{'] + string_json_text(ps[0].0) + seq![':'],
    ensures
        lit + ps[0].1 == seq!['{'] + number_members_text(ps.take(1)),
{
    assert(ps.take(1).len() == 1);
    assert(ps.take(1)[0] == ps[0]);
    assert(lit + ps[0].1 =~= seq!['{'] + number_members_text(ps.take(1)));
}

/// One more member, written after a comma, extends the members text.
proof fn lemma_members_prefix_step(
    ps: Seq<(Seq<char>, Seq<char>)>,
    n: int,
    prev: Seq<char>,
    lit: Seq<char>,
)
    requires
        1 <= n < ps.len(),
        prev == seq!['{'] + number_members_text(ps.take(n)),
        lit == seq![','] + string_json_text(ps[n].0) + seq![':'],
    ensures
        prev + lit + ps[n].1 == seq!['{'] + number_members_text(ps.take(n + 1)),
{
    let next = ps.take(n + 1);
    lemma_number_members_text_snoc(next);
    assert(next.drop_last() =~= ps.take(n));
    assert(next.last() == ps[n]);
    assert(prev + lit + ps[n].1 =~= seq!['{'] + number_members_text(next));
}

/// The closing brace ends the object.
proof fn lemma_members_close(ps: Seq<(Seq<char>, Seq<char>)>, prev: Seq<char>)
    requires
        prev == seq!['{'] + number_members_text(ps.take(ps.len() as int)),
    ensures
        prev + "}"@ == number_object_text(ps),
{
    reveal_strlit("}");
    assert(ps.take(ps.len() as int) =~= ps);
    assert(prev + "}"@ =~= number_object_text(ps));
}

proof fn lemma_picture_quality_keys()
    ensures
        "{\"contrast\":"@ == seq!['{'] + string_json_text("contrast"@) + seq![':'],
        ",\"brightness\":"@ == seq![','] + string_json_text("brightness"@) + seq![':'],
        ",\"hue_u\":"@ == seq![','] + string_json_text("hue_u"@) + seq![':'],
        ",\"hue_v\":"@ == seq![','] + string_json_text("hue_v"@) + seq![':'],
        ",\"saturation_u\":"@ == seq![','] + string_json_text("saturation_u"@) + seq![':'],
        ",\"saturation_v\":"@ == seq![','] + string_json_text("saturation_v"@) + seq![':'],
        ",\"sharpness\":"@ == seq![','] + string_json_text("sharpness"@) + seq![':'],
{
    reveal_strlit("{\"contrast\":");
    reveal_strlit("contrast");
    lemma_member_key("{\"contrast\":"@, '{', "contrast"@);
    reveal_strlit(",\"brightness\":");
    reveal_strlit("brightness");
    lemma_member_key(",\"brightness\":"@, ',', "brightness"@);
    reveal_strlit(",\"hue_u\":");
    reveal_strlit("hue_u");
    lemma_member_key(",\"hue_u\":"@, ',', "hue_u"@);
    reveal_strlit(",\"hue_v\":");
    reveal_strlit("hue_v");
    lemma_member_key(",\"hue_v\":"@, ',', "hue_v"@);
    reveal_strlit(",\"saturation_u\":");
    reveal_strlit("saturation_u");
    lemma_member_key(",\"saturation_u\":"@, ',', "saturation_u"@);
    reveal_strlit(",\"saturation_v\":");
    reveal_strlit("saturation_v");
    lemma_member_key(",\"saturation_v\":"@, ',', "saturation_v"@);
    reveal_strlit(",\"sharpness\":");
    reveal_strlit("sharpness");
    lemma_member_key(",\"sharpness\":"@, ',', "sharpness"@);
}

/// The members of the picture quality JSON: each field's name with its decimal text.
spec fn picture_quality_members(q: PictureQuality) -> Seq<(Seq<char>, Seq<char>)> {
    seq![
        ("contrast"@, dec_int(q.contrast as int)),
        ("brightness"@, dec_int(q.brightness as int)),
        ("hue_u"@, dec_int(q.hue_u as int)),
        ("hue_v"@, dec_int(q.hue_v as int)),
        ("saturation_u"@, dec_int(q.saturation_u as int)),
        ("saturation_v"@, dec_int(q.saturation_v as int)),
        ("sharpness"@, dec_int(q.sharpness as int)),
    ]
}

proof fn lemma_picture_quality_json_is_object(q: PictureQuality)
    ensures
        picture_quality_json_text(q) == number_object_text(picture_quality_members(q)),
{
    lemma_picture_quality_keys();
    let ps = picture_quality_members(q);
    let p0 = "{\"contrast\":"@ + ps[0].1;
    lemma_members_prefix_first(ps, "{\"contrast\":"@);
    let p1 = p0 + ",\"brightness\":"@ + ps[1].1;
    lemma_members_prefix_step(ps, 1, p0, ",\"brightness\":"@);
    let p2 = p1 + ",\"hue_u\":"@ + ps[2].1;
    lemma_members_prefix_step(ps, 2, p1, ",\"hue_u\":"@);
    let p3 = p2 + ",\"hue_v\":"@ + ps[3].1;
    lemma_members_prefix_step(ps, 3, p2, ",\"hue_v\":"@);
    let p4 = p3 + ",\"saturation_u\":"@ + ps[4].1;
    lemma_members_prefix_step(ps, 4, p3, ",\"saturation_u\":"@);
    let p5 = p4 + ",\"saturation_v\":"@ + ps[5].1;
    lemma_members_prefix_step(ps, 5, p4, ",\"saturation_v\":"@);
    let p6 = p5 + ",\"sharpness\":"@ + ps[6].1;
    lemma_members_prefix_step(ps, 6, p5, ",\"sharpness\":"@);
    lemma_members_close(ps, p6);
}

/// The picture quality JSON, read back by the library's JSON parser, is an object whose
/// members are, in order, `contrast`, `brightness`, `hue_u`, `hue_v`, `saturation_u`,
/// `saturation_v` and `sharpness`, each holding the decimal text of the field of the same name.
pub proof fn lemma_picture_quality_json_read_back(q: PictureQuality)
    ensures
        value_at(picture_quality_json_text(q), 0) == Ok::<(JsonData, int), Seq<char>>(
            (
                JsonData::Object(
                    seq![
                        ("contrast"@, JsonData::Number(dec_int(q.contrast as int))),
                        ("brightness"@, JsonData::Number(dec_int(q.brightness as int))),
                        ("hue_u"@, JsonData::Number(dec_int(q.hue_u as int))),
                        ("hue_v"@, JsonData::Number(dec_int(q.hue_v as int))),
                        ("saturation_u"@, JsonData::Number(dec_int(q.saturation_u as int))),
                        ("saturation_v"@, JsonData::Number(dec_int(q.saturation_v as int))),
                        ("sharpness"@, JsonData::Number(dec_int(q.sharpness as int))),
                    ],
                ),
                picture_quality_json_text(q).len() as int,
            ),
        ),
{
    let ps = picture_quality_members(q);
    lemma_picture_quality_json_is_object(q);
    lemma_dec_int_plain(q.contrast as int);
    lemma_dec_int_plain(q.brightness as int);
    lemma_dec_int_plain(q.hue_u as int);
    lemma_dec_int_plain(q.hue_v as int);
    lemma_dec_int_plain(q.saturation_u as int);
    lemma_dec_int_plain(q.saturation_v as int);
    lemma_dec_int_plain(q.sharpness as int);
    assert forall|k: int| 0 <= k < ps.len() implies plain_number(#[trigger] ps[k].1) by {}
    lemma_number_object_read_back(ps);
    assert(number_members(ps) =~= seq![
        ("contrast"@, JsonData::Number(dec_int(q.contrast as int))),
        ("brightness"@, JsonData::Number(dec_int(q.brightness as int))),
        ("hue_u"@, JsonData::Number(dec_int(q.hue_u as int))),
        ("hue_v"@, JsonData::Number(dec_int(q.hue_v as int))),
        ("saturation_u"@, JsonData::Number(dec_int(q.saturation_u as int))),
        ("saturation_v"@, JsonData::Number(dec_int(q.saturation_v as int))),
        ("sharpness"@, JsonData::Number(dec_int(q.sharpness as int))),
    ]);
}

proof fn lemma_alignment_keys()
    ensures
        "{\"r0_horizontal\":"@ == seq!['{'] + string_json_text("r0_horizontal"@) + seq![':'],
        ",\"r1_horizontal\":"@ == seq![','] + string_json_text("r1_horizontal"@) + seq![':'],
        ",\"g0_horizontal\":"@ == seq![','] + string_json_text("g0_horizontal"@) + seq![':'],
        ",\"g1_horizontal\":"@ == seq![','] + string_json_text("g1_horizontal"@) + seq![':'],
        ",\"b_horizontal\":"@ == seq![','] + string_json_text("b_horizontal"@) + seq![':'],
        ",\"r0_vertical\":"@ == seq![','] + string_json_text("r0_vertical"@) + seq![':'],
        ",\"r1_vertical\":"@ == seq![','] + string_json_text("r1_vertical"@) + seq![':'],
        ",\"g0_vertical\":"@ == seq![','] + string_json_text("g0_vertical"@) + seq![':'],
        ",\"g1_vertical\":"@ == seq![','] + string_json_text("g1_vertical"@) + seq![':'],
        ",\"b_vertical\":"@ == seq![','] + string_json_text("b_vertical"@) + seq![':'],
{
    reveal_strlit("{\"r0_horizontal\":");
    reveal_strlit("r0_horizontal");
    lemma_member_key("{\"r0_horizontal\":"@, '{', "r0_horizontal"@);
    reveal_strlit(",\"r1_horizontal\":");
    reveal_strlit("r1_horizontal");
    lemma_member_key(",\"r1_horizontal\":"@, ',', "r1_horizontal"@);
    reveal_strlit(",\"g0_horizontal\":");
    reveal_strlit("g0_horizontal");
    lemma_member_key(",\"g0_horizontal\":"@, ',', "g0_horizontal"@);
    reveal_strlit(",\"g1_horizontal\":");
    reveal_strlit("g1_horizontal");
    lemma_member_key(",\"g1_horizontal\":"@, ',', "g1_horizontal"@);
    reveal_strlit(",\"b_horizontal\":");
    reveal_strlit("b_horizontal");
    lemma_member_key(",\"b_horizontal\":"@, ',', "b_horizontal"@);
    reveal_strlit(",\"r0_vertical\":");
    reveal_strlit("r0_vertical");
    lemma_member_key(",\"r0_vertical\":"@, ',', "r0_vertical"@);
    reveal_strlit(",\"r1_vertical\":");
    reveal_strlit("r1_vertical");
    lemma_member_key(",\"r1_vertical\":"@, ',', "r1_vertical"@);
    reveal_strlit(",\"g0_vertical\":");
    reveal_strlit("g0_vertical");
    lemma_member_key(",\"g0_vertical\":"@, ',', "g0_vertical"@);
    reveal_strlit(",\"g1_vertical\":");
    reveal_strlit("g1_vertical");
    lemma_member_key(",\"g1_vertical\":"@, ',', "g1_vertical"@);
    reveal_strlit(",\"b_vertical\":");
    reveal_strlit("b_vertical");
    lemma_member_key(",\"b_vertical\":"@, ',', "b_vertical"@);
}

/// The members of the optical alignment JSON: each field's name with its decimal text.
spec fn alignment_members(a: OpticalAlignment) -> Seq<(Seq<char>, Seq<char>)> {
    seq![
        ("r0_horizontal"@, dec_int(a.r0_horizontal.0 as int)),
        ("r1_horizontal"@, dec_int(a.r1_horizontal.0 as int)),
        ("g0_horizontal"@, dec_int(a.g0_horizontal.0 as int)),
        ("g1_horizontal"@, dec_int(a.g1_horizontal.0 as int)),
        ("b_horizontal"@, dec_int(a.b_horizontal.0 as int)),
        ("r0_vertical"@, dec_int(a.r0_vertical as int)),
        ("r1_vertical"@, dec_int(a.r1_vertical as int)),
        ("g0_vertical"@, dec_int(a.g0_vertical as int)),
        ("g1_vertical"@, dec_int(a.g1_vertical as int)),
        ("b_vertical"@, dec_int(a.b_vertical as int)),
    ]
}

proof fn lemma_alignment_json_is_object(a: OpticalAlignment)
    ensures
        alignment_json_text(a) == number_object_text(alignment_members(a)),
{
    lemma_alignment_keys();
    let ps = alignment_members(a);
    let p0 = "{\"r0_horizontal\":"@ + ps[0].1;
    lemma_members_prefix_first(ps, "{\"r0_horizontal\":"@);
    let p1 = p0 + ",\"r1_horizontal\":"@ + ps[1].1;
    lemma_members_prefix_step(ps, 1, p0, ",\"r1_horizontal\":"@);
    let p2 = p1 + ",\"g0_horizontal\":"@ + ps[2].1;
    lemma_members_prefix_step(ps, 2, p1, ",\"g0_horizontal\":"@);
    let p3 = p2 + ",\"g1_horizontal\":"@ + ps[3].1;
    lemma_members_prefix_step(ps, 3, p2, ",\"g1_horizontal\":"@);
    let p4 = p3 + ",\"b_horizontal\":"@ + ps[4].1;
    lemma_members_prefix_step(ps, 4, p3, ",\"b_horizontal\":"@);
    let p5 = p4 + ",\"r0_vertical\":"@ + ps[5].1;
    lemma_members_prefix_step(ps, 5, p4, ",\"r0_vertical\":"@);
    let p6 = p5 + ",\"r1_vertical\":"@ + ps[6].1;
    lemma_members_prefix_step(ps, 6, p5, ",\"r1_vertical\":"@);
    let p7 = p6 + ",\"g0_vertical\":"@ + ps[7].1;
    lemma_members_prefix_step(ps, 7, p6, ",\"g0_vertical\":"@);
    let p8 = p7 + ",\"g1_vertical\":"@ + ps[8].1;
    lemma_members_prefix_step(ps, 8, p7, ",\"g1_vertical\":"@);
    let p9 = p8 + ",\"b_vertical\":"@ + ps[9].1;
    lemma_members_prefix_step(ps, 9, p8, ",\"b_vertical\":"@);
    lemma_members_close(ps, p9);
}

proof fn lemma_alignment_members_plain(a: OpticalAlignment)
    ensures
        forall|k: int|
            0 <= k < alignment_members(a).len() ==> plain_number(
                #[trigger] alignment_members(a)[k].1,
            ),
{
    let ps = alignment_members(a);
    lemma_dec_int_plain(a.r0_horizontal.0 as int);
    lemma_dec_int_plain(a.r1_horizontal.0 as int);
    lemma_dec_int_plain(a.g0_horizontal.0 as int);
    lemma_dec_int_plain(a.g1_horizontal.0 as int);
    lemma_dec_int_plain(a.b_horizontal.0 as int);
    lemma_dec_int_plain(a.r0_vertical as int);
    lemma_dec_int_plain(a.r1_vertical as int);
    lemma_dec_int_plain(a.g0_vertical as int);
    lemma_dec_int_plain(a.g1_vertical as int);
    lemma_dec_int_plain(a.b_vertical as int);
    assert forall|k: int| 0 <= k < ps.len() implies plain_number(#[trigger] ps[k].1) by {}
}

/// The optical alignment JSON, read back by the library's JSON parser, is an object whose
/// members are the five horizontal steps and the five vertical values, each named after and
/// holding the decimal text of its field.
pub proof fn lemma_alignment_json_read_back(a: OpticalAlignment)
    ensures
        value_at(alignment_json_text(a), 0) == Ok::<(JsonData, int), Seq<char>>(
            (
                JsonData::Object(
                    seq![
                        ("r0_horizontal"@, JsonData::Number(dec_int(a.r0_horizontal.0 as int))),
                        ("r1_horizontal"@, JsonData::Number(dec_int(a.r1_horizontal.0 as int))),
                        ("g0_horizontal"@, JsonData::Number(dec_int(a.g0_horizontal.0 as int))),
                        ("g1_horizontal"@, JsonData::Number(dec_int(a.g1_horizontal.0 as int))),
                        ("b_horizontal"@, JsonData::Number(dec_int(a.b_horizontal.0 as int))),
                        ("r0_vertical"@, JsonData::Number(dec_int(a.r0_vertical as int))),
                        ("r1_vertical"@, JsonData::Number(dec_int(a.r1_vertical as int))),
                        ("g0_vertical"@, JsonData::Number(dec_int(a.g0_vertical as int))),
                        ("g1_vertical"@, JsonData::Number(dec_int(a.g1_vertical as int))),
                        ("b_vertical"@, JsonData::Number(dec_int(a.b_vertical as int))),
                    ],
                ),
                alignment_json_text(a).len() as int,
            ),
        ),
{
    let ps = alignment_members(a);
    lemma_alignment_json_is_object(a);
    lemma_alignment_members_plain(a);
    lemma_number_object_read_back(ps);
    assert(number_members(ps) =~= seq![
        ("r0_horizontal"@, JsonData::Number(dec_int(a.r0_horizontal.0 as int))),
        ("r1_horizontal"@, JsonData::Number(dec_int(a.r1_horizontal.0 as int))),
        ("g0_horizontal"@, JsonData::Number(dec_int(a.g0_horizontal.0 as int))),
        ("g1_horizontal"@, JsonData::Number(dec_int(a.g1_horizontal.0 as int))),
        ("b_horizontal"@, JsonData::Number(dec_int(a.b_horizontal.0 as int))),
        ("r0_vertical"@, JsonData::Number(dec_int(a.r0_vertical as int))),
        ("r1_vertical"@, JsonData::Number(dec_int(a.r1_vertical as int))),
        ("g0_vertical"@, JsonData::Number(dec_int(a.g0_vertical as int))),
        ("g1_vertical"@, JsonData::Number(dec_int(a.g1_vertical as int))),
        ("b_vertical"@, JsonData::Number(dec_int(a.b_vertical as int))),
    ]);
}

} // verus!
