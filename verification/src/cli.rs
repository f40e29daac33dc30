use vstd::prelude::*;

use crate::args::{flag_key, flags_from, spec_finish, spec_required, unused_text, Args};
use crate::commands::{
    lemma_output_test_picture_frame, lemma_save_user_param_frame, lemma_set_all_picture_quality_frame,
    lemma_set_brightness_frame, lemma_set_contrast_frame, lemma_set_hue_frame,
    lemma_set_saturation_frame, lemma_set_sharpness_frame, lemma_set_video_output_position_frame,
    signed_byte_value, update_frame, CommandError, DivisionTransmissionUpdateData, DivisionTransmissionUpdateFwImage,
    DivisionTransmissionUpdatePictureData, GetAllPictureQuality, GetBiphase, GetBrightness,
    GetContrast, GetHue, GetLotNumber, GetOpticalAlignment, GetSaturation, GetSerialNumber,
    GetSharpness, GetTemperature, GetTime, GetVersion, GetVideoOutputPosition, I8Byte,
    InitializeUserParam, MuteUnmuteChangeOutput, OpticalAlignment, OutputTestPicture, Pan,
    PictureQuality, Request, Rgb, SaveUserParam, SetAllPictureQuality, SetBiphase, SetBrightness,
    SetContrast, SetEasyBiphaseAdjustmentControl, SetEasyBiphaseAdjustmentExit,
    SetEasyBiphaseAdjustmentMinus, SetEasyBiphaseAdjustmentPlus, SetEasyOpticalAdjustmentControl,
    SetEasyOpticalAdjustmentExit, SetEasyOpticalAdjustmentMinus, SetEasyOpticalAdjustmentPlus,
    SetHue, SetOpticalAlignment, SetSaturation, SetSharpness, SetVideoOutputPosition,
    ShutdownReboot, StartInput, StopInput, StopInputSpecially, Tilt, UpdateFwImage,
    UpdatePictureData,
};
use crate::numbers::{
    parse_i8, parse_u16, parse_u32, parse_u8, spec_parse_signed, spec_parse_unsigned,
};
use crate::options::{
    DivisionTransmissionFormat, Flip, MuteOutput, SaveAdjustment, SaveOpticalAlignmentBiphase,
    SavePictureQuality, SaveVideoPosition, ShutdownOption, StoppedOutput, TestPattern,
};
use crate::text::{
    chars_eq_str, chars_of, chars_skip, chars_start_with, dec_int, digit_value, normalize_name,
    normalized, push_chars, push_dec_i128, push_str, runs, split_runs, starts_with, string_from,
    to_digit, views,
};

verus! {

/// How `{:?}` shows a `CommandError` (field names are plain identifiers).
pub open spec fn error_debug_text(e: CommandError) -> Seq<char> {
    match e {
        CommandError::WrongCommand { expected, actual } => "WrongCommand { expected: "@ + dec_int(
            expected as int,
        ) + ", actual: "@ + dec_int(actual as int) + " }"@,
        CommandError::WrongPayloadSize { expected, actual } => "WrongPayloadSize { expected: "@
            + dec_int(expected as int) + ", actual: "@ + dec_int(actual as int) + " }"@,
        CommandError::InvalidPayloadSize(size) => "InvalidPayloadSize("@ + dec_int(size as int)
            + ")"@,
        CommandError::InvalidValue { field, value } => "InvalidValue { field: \""@ + field@
            + "\", value: "@ + dec_int(value as int) + " }"@,
        CommandError::PayloadTooLarge(size) => "PayloadTooLarge("@ + dec_int(size as int) + ")"@,
        CommandError::DivisionBlockTooLarge { max, actual } => "DivisionBlockTooLarge { max: "@
            + dec_int(max as int) + ", actual: "@ + dec_int(actual as int) + " }"@,
    }
}

pub fn error_debug(e: CommandError) -> (text: Vec<char>)
    ensures
        text@ == error_debug_text(e),
{
    let mut text = Vec::new();
    match e {
        CommandError::WrongCommand { expected, actual } => {
            push_str(&mut text, "WrongCommand { expected: ");
            push_dec_i128(&mut text, expected as i128);
            push_str(&mut text, ", actual: ");
            push_dec_i128(&mut text, actual as i128);
            push_str(&mut text, " }");
        },
        CommandError::WrongPayloadSize { expected, actual } => {
            push_str(&mut text, "WrongPayloadSize { expected: ");
            push_dec_i128(&mut text, expected as i128);
            push_str(&mut text, ", actual: ");
            push_dec_i128(&mut text, actual as i128);
            push_str(&mut text, " }");
        },
        CommandError::InvalidPayloadSize(size) => {
            push_str(&mut text, "InvalidPayloadSize(");
            push_dec_i128(&mut text, size as i128);
            push_str(&mut text, ")");
        },
        CommandError::InvalidValue { field, value } => {
            push_str(&mut text, "InvalidValue { field: \"");
            push_str(&mut text, field);
            push_str(&mut text, "\", value: ");
            push_dec_i128(&mut text, value as i128);
            push_str(&mut text, " }");
        },
        CommandError::PayloadTooLarge(size) => {
            push_str(&mut text, "PayloadTooLarge(");
            push_dec_i128(&mut text, size as i128);
            push_str(&mut text, ")");
        },
        CommandError::DivisionBlockTooLarge { max, actual } => {
            push_str(&mut text, "DivisionBlockTooLarge { max: ");
            push_dec_i128(&mut text, max as i128);
            push_str(&mut text, ", actual: ");
            push_dec_i128(&mut text, actual as i128);
            push_str(&mut text, " }");
        },
    }
    text
}

/// Every char is a hexadecimal digit.
pub open spec fn all_hex(h: Seq<char>) -> bool {
    forall|i: int| 0 <= i < h.len() ==> (#[trigger] digit_value(h[i], 16)) is Some
}

/// Value of a hexadecimal digit char.
pub open spec fn hex_value(c: char) -> int {
    digit_value(c, 16)->0 as int
}

/// Bytes read from consecutive pairs of hexadecimal digits.
pub open spec fn hex_pairs(h: Seq<char>) -> Seq<u8> {
    Seq::new(h.len() / 2, |i: int| (16 * hex_value(h[2 * i]) + hex_value(h[2 * i + 1])) as u8)
}

/// One part of a byte list: a byte value (decimal, or hexadecimal after `0x`), else one or
/// two hexadecimal digits, so that `ff,ff,ff` reads as three bytes of 255.
pub open spec fn part_byte(p: Seq<char>) -> Result<u8, Seq<char>> {
    match spec_parse_unsigned(p, 0xFF) {
        Ok(b) => Ok(b as u8),
        Err(e) => if 1 <= p.len() <= 2 && all_hex(p) {
            Ok(
                if p.len() == 2 {
                    (16 * hex_value(p[0]) + hex_value(p[1])) as u8
                } else {
                    hex_value(p[0]) as u8
                },
            )
        } else {
            Err(e)
        },
    }
}

/// Each part read as a byte, stopping at the first part that is not one.
pub open spec fn bytes_of_parts(parts: Seq<Seq<char>>) -> Result<Seq<u8>, Seq<char>>
    decreases parts.len(),
{
    if parts.len() == 0 {
        Ok(Seq::empty())
    } else {
        match part_byte(parts[0]) {
            Err(e) => Err(e),
            Ok(b) => match bytes_of_parts(parts.drop_first()) {
                Ok(rest) => Ok(seq![b] + rest),
                Err(e) => Err(e),
            },
        }
    }
}

/// Reads one part of a byte list.
fn parse_part_byte(p: &[char]) -> (r: Result<u8, Vec<char>>)
    ensures
        match r {
            Ok(b) => part_byte(p@) == Ok::<u8, Seq<char>>(b),
            Err(e) => part_byte(p@) == Err::<u8, Seq<char>>(e@),
        },
{
    match parse_u8(p) {
        Ok(b) => Ok(b),
        Err(e) => {
            if 1 <= p.len() && p.len() <= 2 && all_hex_digits(p) {
                let hi = to_digit(p[0], 16);
                assert(digit_value(p@[0], 16) is Some);
                let h = match hi {
                    Some(h) => h,
                    None => 0,
                };
                if p.len() == 2 {
                    let lo = to_digit(p[1], 16);
                    assert(digit_value(p@[1], 16) is Some);
                    let l = match lo {
                        Some(l) => l,
                        None => 0,
                    };
                    Ok((16 * h + l) as u8)
                } else {
                    Ok(h as u8)
                }
            } else {
                Err(e)
            }
        },
    }
}

/// Byte-list text: several parts separated by `,` or `:`, each read by `part_byte`; else
/// an even number (at least two) of hexadecimal digits, optionally after `0x`/`0X`; else
/// one byte value.
pub open spec fn spec_parse_bytes(value: Seq<char>) -> Result<Seq<u8>, Seq<char>> {
    let parts = runs(value, 1);
    if parts.len() > 1 {
        bytes_of_parts(parts)
    } else {
        let hex = if starts_with(value, "0x"@) || starts_with(value, "0X"@) {
            value.skip(2)
        } else {
            value
        };
        if hex.len() >= 2 && hex.len() % 2 == 0 && all_hex(hex) {
            Ok(hex_pairs(hex))
        } else {
            match spec_parse_unsigned(value, 0xFF) {
                Ok(b) => Ok(seq![b as u8]),
                Err(e) => Err(e),
            }
        }
    }
}

fn all_hex_digits(h: &[char]) -> (yes: bool)
    ensures
        yes == all_hex(h@),
{
    let mut i: usize = 0;
    while i < h.len()
        invariant
            i <= h@.len(),
            forall|j: int| 0 <= j < i ==> (#[trigger] digit_value(h@[j], 16)) is Some,
        decreases h@.len() - i,
    {
        if to_digit(h[i], 16).is_none() {
            return false;
        }
        i = i + 1;
    }
    true
}

fn parse_bytes(value: &[char]) -> (r: Result<Vec<u8>, Vec<char>>)
    ensures
        match r {
            Ok(b) => spec_parse_bytes(value@) == Ok::<Seq<u8>, Seq<char>>(b@),
            Err(e) => spec_parse_bytes(value@) == Err::<Seq<u8>, Seq<char>>(e@),
        },
{
    proof {
        reveal_strlit("0x");
        reveal_strlit("0X");
    }
    let parts = split_runs(value, 1);
    if parts.len() > 1 {
        let mut out: Vec<u8> = Vec::new();
        let mut i: usize = 0;
        let ghost ps = views(parts@);
        assert(ps.skip(0) =~= ps);
        while i < parts.len()
            invariant
                i <= parts@.len(),
                ps == views(parts@),
                ps == runs(value@, 1),
                ps.len() > 1,
                bytes_of_parts(ps) == (match bytes_of_parts(ps.skip(i as int)) {
                    Ok(rest) => Ok(out@ + rest),
                    Err(e) => Err(e),
                }),
            decreases parts@.len() - i,
        {
            assert(ps.skip(i as int)[0] == parts@[i as int]@);
            assert(ps.skip(i as int).drop_first() =~= ps.skip(i + 1));
            let b = match parse_part_byte(parts[i].as_slice()) {
                Ok(b) => b,
                Err(e) => {
                    assert(bytes_of_parts(ps.skip(i as int)) == Err::<Seq<u8>, Seq<char>>(e@));
                    assert(spec_parse_bytes(value@) == bytes_of_parts(ps));
                    return Err(e);
                },
            };
            let ghost before = out@;
            out.push(b);
            proof {
                match bytes_of_parts(ps.skip(i + 1)) {
                    Ok(rest) => {
                        assert(before + (seq![b] + rest) =~= out@ + rest);
                    },
                    Err(e) => {},
                }
            }
            i = i + 1;
        }
        assert(ps.skip(i as int).len() == 0);
        assert(out@ + Seq::<u8>::empty() =~= out@);
        return Ok(out);
    }
    let hex = if chars_start_with(value, "0x") || chars_start_with(value, "0X") {
        chars_skip(value, 2)
    } else {
        chars_skip(value, 0)
    };
    assert(value@.skip(0) =~= value@);
    if hex.len() >= 2 && hex.len() % 2 == 0 && all_hex_digits(hex.as_slice()) {
        let mut out: Vec<u8> = Vec::new();
        let mut k: usize = 0;
        while k < hex.len() / 2
            invariant
                k <= hex@.len() / 2,
                hex@.len() % 2 == 0,
                all_hex(hex@),
                out@ == hex_pairs(hex@).take(k as int),
            decreases hex@.len() / 2 - k,
        {
            let hi = to_digit(hex[2 * k], 16);
            let lo = to_digit(hex[2 * k + 1], 16);
            assert(digit_value(hex@[2 * k as int], 16) is Some);
            assert(digit_value(hex@[2 * k + 1], 16) is Some);
            let (h, l) = match (hi, lo) {
                (Some(h), Some(l)) => (h, l),
                _ => (0, 0),
            };
            out.push((16 * h + l) as u8);
            k = k + 1;
            assert(out@ =~= hex_pairs(hex@).take(k as int));
        }
        assert(hex_pairs(hex@).take(k as int) =~= hex_pairs(hex@));
        return Ok(out);
    }
    match parse_u8(value) {
        Ok(b) => {
            let mut out = Vec::new();
            out.push(b);
            assert(out@ =~= seq![b]);
            Ok(out)
        },
        Err(e) => Err(e),
    }
}

/// Three byte values for the red, green and blue parts.
pub open spec fn spec_parse_rgb(value: Seq<char>) -> Result<Rgb, Seq<char>> {
    match spec_parse_bytes(value) {
        Err(e) => Err(e),
        Ok(b) => if b.len() != 3 {
            Err("RGB value must have 3 bytes, got "@ + dec_int(b.len() as int))
        } else {
            Ok(Rgb { r: b[0], g: b[1], b: b[2] })
        },
    }
}

fn parse_rgb(value: &[char]) -> (r: Result<Rgb, Vec<char>>)
    ensures
        match r {
            Ok(c) => spec_parse_rgb(value@) == Ok::<Rgb, Seq<char>>(c),
            Err(e) => spec_parse_rgb(value@) == Err::<Rgb, Seq<char>>(e@),
        },
{
    let bytes = match parse_bytes(value) {
        Ok(b) => b,
        Err(e) => return Err(e),
    };
    if bytes.len() != 3 {
        let mut e = Vec::new();
        push_str(&mut e, "RGB value must have 3 bytes, got ");
        push_dec_i128(&mut e, bytes.len() as i128);
        return Err(e);
    }
    Ok(Rgb { r: bytes[0], g: bytes[1], b: bytes[2] })
}


/// Outcome of building a frame, errors taken by their text.
pub open spec fn bytes_outcome(r: Result<Vec<u8>, Vec<char>>, expected: Result<Seq<u8>, Seq<char>>) -> bool {
    match r {
        Ok(b) => expected == Ok::<Seq<u8>, Seq<char>>(b@),
        Err(e) => expected == Err::<Seq<u8>, Seq<char>>(e@),
    }
}

pub open spec fn spec_parse_i8(value: Seq<char>) -> Result<i8, Seq<char>> {
    match spec_parse_signed(value, -128, 127) {
        Ok(v) => Ok(v as i8),
        Err(e) => Err(e),
    }
}

pub open spec fn spec_parse_u8(value: Seq<char>) -> Result<u8, Seq<char>> {
    match spec_parse_unsigned(value, 0xFF) {
        Ok(v) => Ok(v as u8),
        Err(e) => Err(e),
    }
}

pub open spec fn spec_parse_u16(value: Seq<char>) -> Result<u16, Seq<char>> {
    match spec_parse_unsigned(value, 0xFFFF) {
        Ok(v) => Ok(v as u16),
        Err(e) => Err(e),
    }
}

pub open spec fn spec_parse_u32(value: Seq<char>) -> Result<u32, Seq<char>> {
    match spec_parse_unsigned(value, 0xFFFF_FFFF) {
        Ok(v) => Ok(v as u32),
        Err(e) => Err(e),
    }
}

fn parse_i8_value(value: &[char]) -> (r: Result<i8, Vec<char>>)
    ensures
        match r {
            Ok(v) => spec_parse_i8(value@) == Ok::<i8, Seq<char>>(v),
            Err(e) => spec_parse_i8(value@) == Err::<i8, Seq<char>>(e@),
        },
{
    parse_i8(value)
}

fn parse_u8_value(value: &[char]) -> (r: Result<u8, Vec<char>>)
    ensures
        match r {
            Ok(v) => spec_parse_u8(value@) == Ok::<u8, Seq<char>>(v),
            Err(e) => spec_parse_u8(value@) == Err::<u8, Seq<char>>(e@),
        },
{
    parse_u8(value)
}

fn parse_u16_value(value: &[char]) -> (r: Result<u16, Vec<char>>)
    ensures
        match r {
            Ok(v) => spec_parse_u16(value@) == Ok::<u16, Seq<char>>(v),
            Err(e) => spec_parse_u16(value@) == Err::<u16, Seq<char>>(e@),
        },
{
    parse_u16(value)
}

fn parse_u32_value(value: &[char]) -> (r: Result<u32, Vec<char>>)
    ensures
        match r {
            Ok(v) => spec_parse_u32(value@) == Ok::<u32, Seq<char>>(v),
            Err(e) => spec_parse_u32(value@) == Err::<u32, Seq<char>>(e@),
        },
{
    parse_u32(value)
}

/// The frame of `request`, unless a flag is left over.
fn request_bytes<R: Request>(request: &R, args: &Args) -> (r: Result<Vec<u8>, Vec<char>>)
    requires
        args.wf(),
    ensures
        bytes_outcome(r, spec_finish(args.view(), request.spec_to_bytes())),
{
    match ensure_no_extra_args(args) {
        Ok(_) => Ok(request.to_bytes()),
        Err(e) => Err(e),
    }
}

/// Refuses flags that no field of the command used, naming them in order.
fn ensure_no_extra_args(args: &Args) -> (r: Result<(), Vec<char>>)
    requires
        args.wf(),
    ensures
        match r {
            Ok(_) => args.view().dom().len() == 0,
            Err(e) => args.view().dom().len() != 0 && e@ == unused_text(args.view()),
        },
{
    if args.is_empty() {
        Ok(())
    } else {
        Err(args.unused_message())
    }
}

// ---------------------------------------------------------------------------
// Option names
// ---------------------------------------------------------------------------

/// A `StoppedOutput` given by name (case, `-` and `_` ignored) or by its byte value.
pub open spec fn spec_parse_stopped_output(value: Seq<char>) -> Result<StoppedOutput, Seq<char>> {
    let name = normalized(value);
    if name == "openingpicture"@ {
        Ok(StoppedOutput::OpeningPicture)
    } else if name == "muteblackpicture"@ {
        Ok(StoppedOutput::MuteBlackPicture)
    } else if name == "muteopeningpicture"@ {
        Ok(StoppedOutput::MuteOpeningPicture)
    } else if name == "finalpicture"@ {
        Ok(StoppedOutput::FinalPicture)
    } else {
        match spec_parse_unsigned(value, 0xFF) {
            Ok(b) => match StoppedOutput::spec_from_byte(b as u8) {
                Ok(v) => Ok(v),
                Err(e) => Err(error_debug_text(e)),
            },
            Err(_) => Err("invalid StoppedOutput value '"@ + value + "'"@),
        }
    }
}

fn parse_stopped_output(value: &[char]) -> (r: Result<StoppedOutput, Vec<char>>)
    ensures
        match r {
            Ok(v) => spec_parse_stopped_output(value@) == Ok::<StoppedOutput, Seq<char>>(v),
            Err(e) => spec_parse_stopped_output(value@) == Err::<StoppedOutput, Seq<char>>(e@),
        },
{
    let name = normalize_name(value);
    if chars_eq_str(name.as_slice(), "openingpicture") {
        return Ok(StoppedOutput::OpeningPicture);
    }
    if chars_eq_str(name.as_slice(), "muteblackpicture") {
        return Ok(StoppedOutput::MuteBlackPicture);
    }
    if chars_eq_str(name.as_slice(), "muteopeningpicture") {
        return Ok(StoppedOutput::MuteOpeningPicture);
    }
    if chars_eq_str(name.as_slice(), "finalpicture") {
        return Ok(StoppedOutput::FinalPicture);
    }
    match parse_u8(value) {
        Ok(b) => match StoppedOutput::from_byte(b) {
            Ok(v) => Ok(v),
            Err(e) => Err(error_debug(e)),
        },
        Err(_) => {
            let mut e = Vec::new();
            push_str(&mut e, "invalid StoppedOutput value '");
            push_chars(&mut e, value);
            push_str(&mut e, "'");
            Err(e)
        },
    }
}

/// A `MuteOutput` given by name (case, `-` and `_` ignored) or by its byte value.
pub open spec fn spec_parse_mute_output(value: Seq<char>) -> Result<MuteOutput, Seq<char>> {
    let name = normalized(value);
    if name == "unmute"@ {
        Ok(MuteOutput::Unmute)
    } else if name == "muteblackpicture"@ {
        Ok(MuteOutput::MuteBlackPicture)
    } else if name == "muteopeningpicture"@ {
        Ok(MuteOutput::MuteOpeningPicture)
    } else if name == "finalpicture"@ {
        Ok(MuteOutput::FinalPicture)
    } else {
        match spec_parse_unsigned(value, 0xFF) {
            Ok(b) => match MuteOutput::spec_from_byte(b as u8) {
                Ok(v) => Ok(v),
                Err(e) => Err(error_debug_text(e)),
            },
            Err(_) => Err("invalid MuteOutput value '"@ + value + "'"@),
        }
    }
}

fn parse_mute_output(value: &[char]) -> (r: Result<MuteOutput, Vec<char>>)
    ensures
        match r {
            Ok(v) => spec_parse_mute_output(value@) == Ok::<MuteOutput, Seq<char>>(v),
            Err(e) => spec_parse_mute_output(value@) == Err::<MuteOutput, Seq<char>>(e@),
        },
{
    let name = normalize_name(value);
    if chars_eq_str(name.as_slice(), "unmute") {
        return Ok(MuteOutput::Unmute);
    }
    if chars_eq_str(name.as_slice(), "muteblackpicture") {
        return Ok(MuteOutput::MuteBlackPicture);
    }
    if chars_eq_str(name.as_slice(), "muteopeningpicture") {
        return Ok(MuteOutput::MuteOpeningPicture);
    }
    if chars_eq_str(name.as_slice(), "finalpicture") {
        return Ok(MuteOutput::FinalPicture);
    }
    match parse_u8(value) {
        Ok(b) => match MuteOutput::from_byte(b) {
            Ok(v) => Ok(v),
            Err(e) => Err(error_debug(e)),
        },
        Err(_) => {
            let mut e = Vec::new();
            push_str(&mut e, "invalid MuteOutput value '");
            push_chars(&mut e, value);
            push_str(&mut e, "'");
            Err(e)
        },
    }
}

/// A `SaveVideoPosition` given by name (case, `-` and `_` ignored) or by its byte value.
pub open spec fn spec_parse_save_video_position(value: Seq<char>) -> Result<SaveVideoPosition, Seq<char>> {
    let name = normalized(value);
    if name == "dontsave"@ {
        Ok(SaveVideoPosition::DontSave)
    } else if name == "all"@ {
        Ok(SaveVideoPosition::All)
    } else if name == "fliponly"@ {
        Ok(SaveVideoPosition::FlipOnly)
    } else {
        match spec_parse_unsigned(value, 0xFF) {
            Ok(b) => match SaveVideoPosition::spec_from_byte(b as u8) {
                Ok(v) => Ok(v),
                Err(e) => Err(error_debug_text(e)),
            },
            Err(_) => Err("invalid SaveVideoPosition value '"@ + value + "'"@),
        }
    }
}

fn parse_save_video_position(value: &[char]) -> (r: Result<SaveVideoPosition, Vec<char>>)
    ensures
        match r {
            Ok(v) => spec_parse_save_video_position(value@) == Ok::<SaveVideoPosition, Seq<char>>(v),
            Err(e) => spec_parse_save_video_position(value@) == Err::<SaveVideoPosition, Seq<char>>(e@),
        },
{
    let name = normalize_name(value);
    if chars_eq_str(name.as_slice(), "dontsave") {
        return Ok(SaveVideoPosition::DontSave);
    }
    if chars_eq_str(name.as_slice(), "all") {
        return Ok(SaveVideoPosition::All);
    }
    if chars_eq_str(name.as_slice(), "fliponly") {
        return Ok(SaveVideoPosition::FlipOnly);
    }
    match parse_u8(value) {
        Ok(b) => match SaveVideoPosition::from_byte(b) {
            Ok(v) => Ok(v),
            Err(e) => Err(error_debug(e)),
        },
        Err(_) => {
            let mut e = Vec::new();
            push_str(&mut e, "invalid SaveVideoPosition value '");
            push_chars(&mut e, value);
            push_str(&mut e, "'");
            Err(e)
        },
    }
}

/// A `SaveOpticalAlignmentBiphase` given by name (case, `-` and `_` ignored) or by its byte value.
pub open spec fn spec_parse_save_optical_alignment_biphase(value: Seq<char>) -> Result<SaveOpticalAlignmentBiphase, Seq<char>> {
    let name = normalized(value);
    if name == "dontsave"@ {
        Ok(SaveOpticalAlignmentBiphase::DontSave)
    } else if name == "all"@ {
        Ok(SaveOpticalAlignmentBiphase::All)
    } else if name == "opticalalignmentonly"@ {
        Ok(SaveOpticalAlignmentBiphase::OpticalAlignmentOnly)
    } else if name == "biphaseonly"@ {
        Ok(SaveOpticalAlignmentBiphase::BiphaseOnly)
    } else {
        match spec_parse_unsigned(value, 0xFF) {
            Ok(b) => match SaveOpticalAlignmentBiphase::spec_from_byte(b as u8) {
                Ok(v) => Ok(v),
                Err(e) => Err(error_debug_text(e)),
            },
            Err(_) => Err("invalid SaveOpticalAlignmentBiphase value '"@ + value + "'"@),
        }
    }
}

fn parse_save_optical_alignment_biphase(value: &[char]) -> (r: Result<SaveOpticalAlignmentBiphase, Vec<char>>)
    ensures
        match r {
            Ok(v) => spec_parse_save_optical_alignment_biphase(value@) == Ok::<SaveOpticalAlignmentBiphase, Seq<char>>(v),
            Err(e) => spec_parse_save_optical_alignment_biphase(value@) == Err::<SaveOpticalAlignmentBiphase, Seq<char>>(e@),
        },
{
    let name = normalize_name(value);
    if chars_eq_str(name.as_slice(), "dontsave") {
        return Ok(SaveOpticalAlignmentBiphase::DontSave);
    }
    if chars_eq_str(name.as_slice(), "all") {
        return Ok(SaveOpticalAlignmentBiphase::All);
    }
    if chars_eq_str(name.as_slice(), "opticalalignmentonly") {
        return Ok(SaveOpticalAlignmentBiphase::OpticalAlignmentOnly);
    }
    if chars_eq_str(name.as_slice(), "biphaseonly") {
        return Ok(SaveOpticalAlignmentBiphase::BiphaseOnly);
    }
    match parse_u8(value) {
        Ok(b) => match SaveOpticalAlignmentBiphase::from_byte(b) {
            Ok(v) => Ok(v),
            Err(e) => Err(error_debug(e)),
        },
        Err(_) => {
            let mut e = Vec::new();
            push_str(&mut e, "invalid SaveOpticalAlignmentBiphase value '");
            push_chars(&mut e, value);
            push_str(&mut e, "'");
            Err(e)
        },
    }
}

/// A `SavePictureQuality` given by name (case, `-` and `_` ignored) or by its byte value.
pub open spec fn spec_parse_save_picture_quality(value: Seq<char>) -> Result<SavePictureQuality, Seq<char>> {
    let name = normalized(value);
    if name == "dontsave"@ {
        Ok(SavePictureQuality::DontSave)
    } else if name == "save"@ {
        Ok(SavePictureQuality::Save)
    } else {
        match spec_parse_unsigned(value, 0xFF) {
            Ok(b) => match SavePictureQuality::spec_from_byte(b as u8) {
                Ok(v) => Ok(v),
                Err(e) => Err(error_debug_text(e)),
            },
            Err(_) => Err("invalid SavePictureQuality value '"@ + value + "'"@),
        }
    }
}

fn parse_save_picture_quality(value: &[char]) -> (r: Result<SavePictureQuality, Vec<char>>)
    ensures
        match r {
            Ok(v) => spec_parse_save_picture_quality(value@) == Ok::<SavePictureQuality, Seq<char>>(v),
            Err(e) => spec_parse_save_picture_quality(value@) == Err::<SavePictureQuality, Seq<char>>(e@),
        },
{
    let name = normalize_name(value);
    if chars_eq_str(name.as_slice(), "dontsave") {
        return Ok(SavePictureQuality::DontSave);
    }
    if chars_eq_str(name.as_slice(), "save") {
        return Ok(SavePictureQuality::Save);
    }
    match parse_u8(value) {
        Ok(b) => match SavePictureQuality::from_byte(b) {
            Ok(v) => Ok(v),
            Err(e) => Err(error_debug(e)),
        },
        Err(_) => {
            let mut e = Vec::new();
            push_str(&mut e, "invalid SavePictureQuality value '");
            push_chars(&mut e, value);
            push_str(&mut e, "'");
            Err(e)
        },
    }
}

/// A `ShutdownOption` given by name (case, `-` and `_` ignored) or by its byte value.
pub open spec fn spec_parse_shutdown_option(value: Seq<char>) -> Result<ShutdownOption, Seq<char>> {
    let name = normalized(value);
    if name == "stopsallfunctions"@ {
        Ok(ShutdownOption::StopsAllFunctions)
    } else if name == "reboot"@ {
        Ok(ShutdownOption::Reboot)
    } else {
        match spec_parse_unsigned(value, 0xFF) {
            Ok(b) => match ShutdownOption::spec_from_byte(b as u8) {
                Ok(v) => Ok(v),
                Err(e) => Err(error_debug_text(e)),
            },
            Err(_) => Err("invalid ShutdownOption value '"@ + value + "'"@),
        }
    }
}

fn parse_shutdown_option(value: &[char]) -> (r: Result<ShutdownOption, Vec<char>>)
    ensures
        match r {
            Ok(v) => spec_parse_shutdown_option(value@) == Ok::<ShutdownOption, Seq<char>>(v),
            Err(e) => spec_parse_shutdown_option(value@) == Err::<ShutdownOption, Seq<char>>(e@),
        },
{
    let name = normalize_name(value);
    if chars_eq_str(name.as_slice(), "stopsallfunctions") {
        return Ok(ShutdownOption::StopsAllFunctions);
    }
    if chars_eq_str(name.as_slice(), "reboot") {
        return Ok(ShutdownOption::Reboot);
    }
    match parse_u8(value) {
        Ok(b) => match ShutdownOption::from_byte(b) {
            Ok(v) => Ok(v),
            Err(e) => Err(error_debug(e)),
        },
        Err(_) => {
            let mut e = Vec::new();
            push_str(&mut e, "invalid ShutdownOption value '");
            push_chars(&mut e, value);
            push_str(&mut e, "'");
            Err(e)
        },
    }
}

/// A `Flip` given by name (case, `-` and `_` ignored) or by its byte value.
pub open spec fn spec_parse_flip(value: Seq<char>) -> Result<Flip, Seq<char>> {
    let name = normalized(value);
    if name == "off"@ {
        Ok(Flip::Off)
    } else if name == "rightleft"@ {
        Ok(Flip::RightLeft)
    } else if name == "updown"@ {
        Ok(Flip::UpDown)
    } else if name == "updownandrightleft"@ {
        Ok(Flip::UpDownAndRightLeft)
    } else {
        match spec_parse_unsigned(value, 0xFF) {
            Ok(b) => match Flip::spec_from_byte(b as u8) {
                Ok(v) => Ok(v),
                Err(e) => Err(error_debug_text(e)),
            },
            Err(_) => Err("invalid Flip value '"@ + value + "'"@),
        }
    }
}

fn parse_flip(value: &[char]) -> (r: Result<Flip, Vec<char>>)
    ensures
        match r {
            Ok(v) => spec_parse_flip(value@) == Ok::<Flip, Seq<char>>(v),
            Err(e) => spec_parse_flip(value@) == Err::<Flip, Seq<char>>(e@),
        },
{
    let name = normalize_name(value);
    if chars_eq_str(name.as_slice(), "off") {
        return Ok(Flip::Off);
    }
    if chars_eq_str(name.as_slice(), "rightleft") {
        return Ok(Flip::RightLeft);
    }
    if chars_eq_str(name.as_slice(), "updown") {
        return Ok(Flip::UpDown);
    }
    if chars_eq_str(name.as_slice(), "updownandrightleft") {
        return Ok(Flip::UpDownAndRightLeft);
    }
    match parse_u8(value) {
        Ok(b) => match Flip::from_byte(b) {
            Ok(v) => Ok(v),
            Err(e) => Err(error_debug(e)),
        },
        Err(_) => {
            let mut e = Vec::new();
            push_str(&mut e, "invalid Flip value '");
            push_chars(&mut e, value);
            push_str(&mut e, "'");
            Err(e)
        },
    }
}

/// A `SaveAdjustment` given by name (case, `-` and `_` ignored) or by its byte value.
pub open spec fn spec_parse_save_adjustment(value: Seq<char>) -> Result<SaveAdjustment, Seq<char>> {
    let name = normalized(value);
    if name == "dontsave"@ {
        Ok(SaveAdjustment::DontSave)
    } else if name == "save"@ {
        Ok(SaveAdjustment::Save)
    } else {
        match spec_parse_unsigned(value, 0xFF) {
            Ok(b) => match SaveAdjustment::spec_from_byte(b as u8) {
                Ok(v) => Ok(v),
                Err(e) => Err(error_debug_text(e)),
            },
            Err(_) => Err("invalid SaveAdjustment value '"@ + value + "'"@),
        }
    }
}

fn parse_save_adjustment(value: &[char]) -> (r: Result<SaveAdjustment, Vec<char>>)
    ensures
        match r {
            Ok(v) => spec_parse_save_adjustment(value@) == Ok::<SaveAdjustment, Seq<char>>(v),
            Err(e) => spec_parse_save_adjustment(value@) == Err::<SaveAdjustment, Seq<char>>(e@),
        },
{
    let name = normalize_name(value);
    if chars_eq_str(name.as_slice(), "dontsave") {
        return Ok(SaveAdjustment::DontSave);
    }
    if chars_eq_str(name.as_slice(), "save") {
        return Ok(SaveAdjustment::Save);
    }
    match parse_u8(value) {
        Ok(b) => match SaveAdjustment::from_byte(b) {
            Ok(v) => Ok(v),
            Err(e) => Err(error_debug(e)),
        },
        Err(_) => {
            let mut e = Vec::new();
            push_str(&mut e, "invalid SaveAdjustment value '");
            push_chars(&mut e, value);
            push_str(&mut e, "'");
            Err(e)
        },
    }
}

/// A `DivisionTransmissionFormat` given by name (case, `-` and `_` ignored) or by its byte value.
pub open spec fn spec_parse_division_transmission_format(value: Seq<char>) -> Result<DivisionTransmissionFormat, Seq<char>> {
    let name = normalized(value);
    if name == "size64"@ {
        Ok(DivisionTransmissionFormat::Size64)
    } else if name == "64"@ {
        Ok(DivisionTransmissionFormat::Size64)
    } else if name == "size256"@ {
        Ok(DivisionTransmissionFormat::Size256)
    } else if name == "256"@ {
        Ok(DivisionTransmissionFormat::Size256)
    } else if name == "size1k"@ {
        Ok(DivisionTransmissionFormat::Size1K)
    } else if name == "1k"@ {
        Ok(DivisionTransmissionFormat::Size1K)
    } else if name == "size4k"@ {
        Ok(DivisionTransmissionFormat::Size4K)
    } else if name == "4k"@ {
        Ok(DivisionTransmissionFormat::Size4K)
    } else if name == "size16k"@ {
        Ok(DivisionTransmissionFormat::Size16K)
    } else if name == "16k"@ {
        Ok(DivisionTransmissionFormat::Size16K)
    } else {
        match spec_parse_unsigned(value, 0xFF) {
            Ok(b) => match DivisionTransmissionFormat::spec_from_byte(b as u8) {
                Ok(v) => Ok(v),
                Err(e) => Err(error_debug_text(e)),
            },
            Err(_) => Err("invalid DivisionTransmissionFormat value '"@ + value + "'"@),
        }
    }
}

fn parse_division_transmission_format(value: &[char]) -> (r: Result<DivisionTransmissionFormat, Vec<char>>)
    ensures
        match r {
            Ok(v) => spec_parse_division_transmission_format(value@) == Ok::<DivisionTransmissionFormat, Seq<char>>(v),
            Err(e) => spec_parse_division_transmission_format(value@) == Err::<DivisionTransmissionFormat, Seq<char>>(e@),
        },
{
    let name = normalize_name(value);
    if chars_eq_str(name.as_slice(), "size64") {
        return Ok(DivisionTransmissionFormat::Size64);
    }
    if chars_eq_str(name.as_slice(), "64") {
        return Ok(DivisionTransmissionFormat::Size64);
    }
    if chars_eq_str(name.as_slice(), "size256") {
        return Ok(DivisionTransmissionFormat::Size256);
    }
    if chars_eq_str(name.as_slice(), "256") {
        return Ok(DivisionTransmissionFormat::Size256);
    }
    if chars_eq_str(name.as_slice(), "size1k") {
        return Ok(DivisionTransmissionFormat::Size1K);
    }
    if chars_eq_str(name.as_slice(), "1k") {
        return Ok(DivisionTransmissionFormat::Size1K);
    }
    if chars_eq_str(name.as_slice(), "size4k") {
        return Ok(DivisionTransmissionFormat::Size4K);
    }
    if chars_eq_str(name.as_slice(), "4k") {
        return Ok(DivisionTransmissionFormat::Size4K);
    }
    if chars_eq_str(name.as_slice(), "size16k") {
        return Ok(DivisionTransmissionFormat::Size16K);
    }
    if chars_eq_str(name.as_slice(), "16k") {
        return Ok(DivisionTransmissionFormat::Size16K);
    }
    match parse_u8(value) {
        Ok(b) => match DivisionTransmissionFormat::from_byte(b) {
            Ok(v) => Ok(v),
            Err(e) => Err(error_debug(e)),
        },
        Err(_) => {
            let mut e = Vec::new();
            push_str(&mut e, "invalid DivisionTransmissionFormat value '");
            push_chars(&mut e, value);
            push_str(&mut e, "'");
            Err(e)
        },
    }
}

/// A `TestPattern` given by name (case, `-` and `_` ignored) or by its byte value.
pub open spec fn spec_parse_test_pattern(value: Seq<char>) -> Result<TestPattern, Seq<char>> {
    let name = normalized(value);
    if name == "stop"@ {
        Ok(TestPattern::Stop)
    } else if name == "colorbar"@ {
        Ok(TestPattern::ColorBar)
    } else if name == "crosshatching"@ {
        Ok(TestPattern::CrossHatching)
    } else if name == "raster"@ {
        Ok(TestPattern::Raster)
    } else if name == "ramp"@ {
        Ok(TestPattern::Ramp)
    } else if name == "circle"@ {
        Ok(TestPattern::Circle)
    } else if name == "cross"@ {
        Ok(TestPattern::Cross)
    } else if name == "circleandcross"@ {
        Ok(TestPattern::CircleAndCross)
    } else if name == "filledcircle"@ {
        Ok(TestPattern::FilledCircle)
    } else if name == "filledsquare"@ {
        Ok(TestPattern::FilledSquare)
    } else if name == "checkerboard"@ {
        Ok(TestPattern::Checkerboard)
    } else if name == "resolutioncheckerverticallines"@ {
        Ok(TestPattern::ResolutionCheckerVerticalLines)
    } else if name == "resolutioncheckerhorizontallines"@ {
        Ok(TestPattern::ResolutionCheckerHorizontalLines)
    } else if name == "resolutioncheckersquare"@ {
        Ok(TestPattern::ResolutionCheckerSquare)
    } else if name == "colorbarrampspecial"@ {
        Ok(TestPattern::ColorBarRampSpecial)
    } else if name == "rectangularhatcheven"@ {
        Ok(TestPattern::RectangularHatchEven)
    } else if name == "rectangularhatchequalcrosshatchinterval"@ {
        Ok(TestPattern::RectangularHatchEqualCrossHatchInterval)
    } else {
        match spec_parse_unsigned(value, 0xFF) {
            Ok(b) => match TestPattern::spec_from_byte(b as u8) {
                Ok(v) => Ok(v),
                Err(e) => Err(error_debug_text(e)),
            },
            Err(_) => Err("invalid TestPattern value '"@ + value + "'"@),
        }
    }
}

fn parse_test_pattern(value: &[char]) -> (r: Result<TestPattern, Vec<char>>)
    ensures
        match r {
            Ok(v) => spec_parse_test_pattern(value@) == Ok::<TestPattern, Seq<char>>(v),
            Err(e) => spec_parse_test_pattern(value@) == Err::<TestPattern, Seq<char>>(e@),
        },
{
    let name = normalize_name(value);
    if chars_eq_str(name.as_slice(), "stop") {
        return Ok(TestPattern::Stop);
    }
    if chars_eq_str(name.as_slice(), "colorbar") {
        return Ok(TestPattern::ColorBar);
    }
    if chars_eq_str(name.as_slice(), "crosshatching") {
        return Ok(TestPattern::CrossHatching);
    }
    if chars_eq_str(name.as_slice(), "raster") {
        return Ok(TestPattern::Raster);
    }
    if chars_eq_str(name.as_slice(), "ramp") {
        return Ok(TestPattern::Ramp);
    }
    if chars_eq_str(name.as_slice(), "circle") {
        return Ok(TestPattern::Circle);
    }
    if chars_eq_str(name.as_slice(), "cross") {
        return Ok(TestPattern::Cross);
    }
    if chars_eq_str(name.as_slice(), "circleandcross") {
        return Ok(TestPattern::CircleAndCross);
    }
    if chars_eq_str(name.as_slice(), "filledcircle") {
        return Ok(TestPattern::FilledCircle);
    }
    if chars_eq_str(name.as_slice(), "filledsquare") {
        return Ok(TestPattern::FilledSquare);
    }
    if chars_eq_str(name.as_slice(), "checkerboard") {
        return Ok(TestPattern::Checkerboard);
    }
    if chars_eq_str(name.as_slice(), "resolutioncheckerverticallines") {
        return Ok(TestPattern::ResolutionCheckerVerticalLines);
    }
    if chars_eq_str(name.as_slice(), "resolutioncheckerhorizontallines") {
        return Ok(TestPattern::ResolutionCheckerHorizontalLines);
    }
    if chars_eq_str(name.as_slice(), "resolutioncheckersquare") {
        return Ok(TestPattern::ResolutionCheckerSquare);
    }
    if chars_eq_str(name.as_slice(), "colorbarrampspecial") {
        return Ok(TestPattern::ColorBarRampSpecial);
    }
    if chars_eq_str(name.as_slice(), "rectangularhatcheven") {
        return Ok(TestPattern::RectangularHatchEven);
    }
    if chars_eq_str(name.as_slice(), "rectangularhatchequalcrosshatchinterval") {
        return Ok(TestPattern::RectangularHatchEqualCrossHatchInterval);
    }
    match parse_u8(value) {
        Ok(b) => match TestPattern::from_byte(b) {
            Ok(v) => Ok(v),
            Err(e) => Err(error_debug(e)),
        },
        Err(_) => {
            let mut e = Vec::new();
            push_str(&mut e, "invalid TestPattern value '");
            push_chars(&mut e, value);
            push_str(&mut e, "'");
            Err(e)
        },
    }
}

// ---------------------------------------------------------------------------
// Required flags
// ---------------------------------------------------------------------------

/// The flag `name`, taken out of `flags` and read as a `i8`.
pub open spec fn spec_take_i8(flags: Map<Seq<char>, Seq<char>>, name: Seq<char>) -> Result<
    (i8, Map<Seq<char>, Seq<char>>),
    Seq<char>,
> {
    match spec_required(flags, name) {
        Err(e) => Err(e),
        Ok((raw, rest)) => match spec_parse_i8(raw) {
            Ok(v) => Ok((v, rest)),
            Err(e) => Err(e),
        },
    }
}

fn take_i8(args: &mut Args, name: &str) -> (r: Result<i8, Vec<char>>)
    requires
        old(args).wf(),
    ensures
        final(args).wf(),
        match r {
            Ok(v) => spec_take_i8(old(args).view(), name@) == Ok::<
                (i8, Map<Seq<char>, Seq<char>>),
                Seq<char>,
            >((v, final(args).view())),
            Err(e) => spec_take_i8(old(args).view(), name@) == Err::<
                (i8, Map<Seq<char>, Seq<char>>),
                Seq<char>,
            >(e@),
        },
{
    let raw = match args.required(name) {
        Ok(raw) => raw,
        Err(e) => return Err(e),
    };
    parse_i8_value(raw.as_slice())
}

/// The flag `name`, taken out of `flags` and read as a `u8`.
pub open spec fn spec_take_u8(flags: Map<Seq<char>, Seq<char>>, name: Seq<char>) -> Result<
    (u8, Map<Seq<char>, Seq<char>>),
    Seq<char>,
> {
    match spec_required(flags, name) {
        Err(e) => Err(e),
        Ok((raw, rest)) => match spec_parse_u8(raw) {
            Ok(v) => Ok((v, rest)),
            Err(e) => Err(e),
        },
    }
}

fn take_u8(args: &mut Args, name: &str) -> (r: Result<u8, Vec<char>>)
    requires
        old(args).wf(),
    ensures
        final(args).wf(),
        match r {
            Ok(v) => spec_take_u8(old(args).view(), name@) == Ok::<
                (u8, Map<Seq<char>, Seq<char>>),
                Seq<char>,
            >((v, final(args).view())),
            Err(e) => spec_take_u8(old(args).view(), name@) == Err::<
                (u8, Map<Seq<char>, Seq<char>>),
                Seq<char>,
            >(e@),
        },
{
    let raw = match args.required(name) {
        Ok(raw) => raw,
        Err(e) => return Err(e),
    };
    parse_u8_value(raw.as_slice())
}

/// The flag `name`, taken out of `flags` and read as a `u16`.
pub open spec fn spec_take_u16(flags: Map<Seq<char>, Seq<char>>, name: Seq<char>) -> Result<
    (u16, Map<Seq<char>, Seq<char>>),
    Seq<char>,
> {
    match spec_required(flags, name) {
        Err(e) => Err(e),
        Ok((raw, rest)) => match spec_parse_u16(raw) {
            Ok(v) => Ok((v, rest)),
            Err(e) => Err(e),
        },
    }
}

fn take_u16(args: &mut Args, name: &str) -> (r: Result<u16, Vec<char>>)
    requires
        old(args).wf(),
    ensures
        final(args).wf(),
        match r {
            Ok(v) => spec_take_u16(old(args).view(), name@) == Ok::<
                (u16, Map<Seq<char>, Seq<char>>),
                Seq<char>,
            >((v, final(args).view())),
            Err(e) => spec_take_u16(old(args).view(), name@) == Err::<
                (u16, Map<Seq<char>, Seq<char>>),
                Seq<char>,
            >(e@),
        },
{
    let raw = match args.required(name) {
        Ok(raw) => raw,
        Err(e) => return Err(e),
    };
    parse_u16_value(raw.as_slice())
}

/// The flag `name`, taken out of `flags` and read as a `u32`.
pub open spec fn spec_take_u32(flags: Map<Seq<char>, Seq<char>>, name: Seq<char>) -> Result<
    (u32, Map<Seq<char>, Seq<char>>),
    Seq<char>,
> {
    match spec_required(flags, name) {
        Err(e) => Err(e),
        Ok((raw, rest)) => match spec_parse_u32(raw) {
            Ok(v) => Ok((v, rest)),
            Err(e) => Err(e),
        },
    }
}

fn take_u32(args: &mut Args, name: &str) -> (r: Result<u32, Vec<char>>)
    requires
        old(args).wf(),
    ensures
        final(args).wf(),
        match r {
            Ok(v) => spec_take_u32(old(args).view(), name@) == Ok::<
                (u32, Map<Seq<char>, Seq<char>>),
                Seq<char>,
            >((v, final(args).view())),
            Err(e) => spec_take_u32(old(args).view(), name@) == Err::<
                (u32, Map<Seq<char>, Seq<char>>),
                Seq<char>,
            >(e@),
        },
{
    let raw = match args.required(name) {
        Ok(raw) => raw,
        Err(e) => return Err(e),
    };
    parse_u32_value(raw.as_slice())
}

/// The flag `name`, taken out of `flags` and read as a `Seq<u8>`.
pub open spec fn spec_take_bytes(flags: Map<Seq<char>, Seq<char>>, name: Seq<char>) -> Result<
    (Seq<u8>, Map<Seq<char>, Seq<char>>),
    Seq<char>,
> {
    match spec_required(flags, name) {
        Err(e) => Err(e),
        Ok((raw, rest)) => match spec_parse_bytes(raw) {
            Ok(v) => Ok((v, rest)),
            Err(e) => Err(e),
        },
    }
}

fn take_bytes(args: &mut Args, name: &str) -> (r: Result<Vec<u8>, Vec<char>>)
    requires
        old(args).wf(),
    ensures
        final(args).wf(),
        match r {
            Ok(v) => spec_take_bytes(old(args).view(), name@) == Ok::<
                (Seq<u8>, Map<Seq<char>, Seq<char>>),
                Seq<char>,
            >((v@, final(args).view())),
            Err(e) => spec_take_bytes(old(args).view(), name@) == Err::<
                (Seq<u8>, Map<Seq<char>, Seq<char>>),
                Seq<char>,
            >(e@),
        },
{
    let raw = match args.required(name) {
        Ok(raw) => raw,
        Err(e) => return Err(e),
    };
    parse_bytes(raw.as_slice())
}

/// The flag `name`, taken out of `flags` and read as a `Rgb`.
pub open spec fn spec_take_rgb(flags: Map<Seq<char>, Seq<char>>, name: Seq<char>) -> Result<
    (Rgb, Map<Seq<char>, Seq<char>>),
    Seq<char>,
> {
    match spec_required(flags, name) {
        Err(e) => Err(e),
        Ok((raw, rest)) => match spec_parse_rgb(raw) {
            Ok(v) => Ok((v, rest)),
            Err(e) => Err(e),
        },
    }
}

fn take_rgb(args: &mut Args, name: &str) -> (r: Result<Rgb, Vec<char>>)
    requires
        old(args).wf(),
    ensures
        final(args).wf(),
        match r {
            Ok(v) => spec_take_rgb(old(args).view(), name@) == Ok::<
                (Rgb, Map<Seq<char>, Seq<char>>),
                Seq<char>,
            >((v, final(args).view())),
            Err(e) => spec_take_rgb(old(args).view(), name@) == Err::<
                (Rgb, Map<Seq<char>, Seq<char>>),
                Seq<char>,
            >(e@),
        },
{
    let raw = match args.required(name) {
        Ok(raw) => raw,
        Err(e) => return Err(e),
    };
    parse_rgb(raw.as_slice())
}

/// The flag `name`, taken out of `flags` and read as a `StoppedOutput`.
pub open spec fn spec_take_stopped_output(flags: Map<Seq<char>, Seq<char>>, name: Seq<char>) -> Result<
    (StoppedOutput, Map<Seq<char>, Seq<char>>),
    Seq<char>,
> {
    match spec_required(flags, name) {
        Err(e) => Err(e),
        Ok((raw, rest)) => match spec_parse_stopped_output(raw) {
            Ok(v) => Ok((v, rest)),
            Err(e) => Err(e),
        },
    }
}

fn take_stopped_output(args: &mut Args, name: &str) -> (r: Result<StoppedOutput, Vec<char>>)
    requires
        old(args).wf(),
    ensures
        final(args).wf(),
        match r {
            Ok(v) => spec_take_stopped_output(old(args).view(), name@) == Ok::<
                (StoppedOutput, Map<Seq<char>, Seq<char>>),
                Seq<char>,
            >((v, final(args).view())),
            Err(e) => spec_take_stopped_output(old(args).view(), name@) == Err::<
                (StoppedOutput, Map<Seq<char>, Seq<char>>),
                Seq<char>,
            >(e@),
        },
{
    let raw = match args.required(name) {
        Ok(raw) => raw,
        Err(e) => return Err(e),
    };
    parse_stopped_output(raw.as_slice())
}

/// The flag `name`, taken out of `flags` and read as a `MuteOutput`.
pub open spec fn spec_take_mute_output(flags: Map<Seq<char>, Seq<char>>, name: Seq<char>) -> Result<
    (MuteOutput, Map<Seq<char>, Seq<char>>),
    Seq<char>,
> {
    match spec_required(flags, name) {
        Err(e) => Err(e),
        Ok((raw, rest)) => match spec_parse_mute_output(raw) {
            Ok(v) => Ok((v, rest)),
            Err(e) => Err(e),
        },
    }
}

fn take_mute_output(args: &mut Args, name: &str) -> (r: Result<MuteOutput, Vec<char>>)
    requires
        old(args).wf(),
    ensures
        final(args).wf(),
        match r {
            Ok(v) => spec_take_mute_output(old(args).view(), name@) == Ok::<
                (MuteOutput, Map<Seq<char>, Seq<char>>),
                Seq<char>,
            >((v, final(args).view())),
            Err(e) => spec_take_mute_output(old(args).view(), name@) == Err::<
                (MuteOutput, Map<Seq<char>, Seq<char>>),
                Seq<char>,
            >(e@),
        },
{
    let raw = match args.required(name) {
        Ok(raw) => raw,
        Err(e) => return Err(e),
    };
    parse_mute_output(raw.as_slice())
}

/// The flag `name`, taken out of `flags` and read as a `SaveVideoPosition`.
pub open spec fn spec_take_save_video_position(flags: Map<Seq<char>, Seq<char>>, name: Seq<char>) -> Result<
    (SaveVideoPosition, Map<Seq<char>, Seq<char>>),
    Seq<char>,
> {
    match spec_required(flags, name) {
        Err(e) => Err(e),
        Ok((raw, rest)) => match spec_parse_save_video_position(raw) {
            Ok(v) => Ok((v, rest)),
            Err(e) => Err(e),
        },
    }
}

fn take_save_video_position(args: &mut Args, name: &str) -> (r: Result<SaveVideoPosition, Vec<char>>)
    requires
        old(args).wf(),
    ensures
        final(args).wf(),
        match r {
            Ok(v) => spec_take_save_video_position(old(args).view(), name@) == Ok::<
                (SaveVideoPosition, Map<Seq<char>, Seq<char>>),
                Seq<char>,
            >((v, final(args).view())),
            Err(e) => spec_take_save_video_position(old(args).view(), name@) == Err::<
                (SaveVideoPosition, Map<Seq<char>, Seq<char>>),
                Seq<char>,
            >(e@),
        },
{
    let raw = match args.required(name) {
        Ok(raw) => raw,
        Err(e) => return Err(e),
    };
    parse_save_video_position(raw.as_slice())
}

/// The flag `name`, taken out of `flags` and read as a `SaveOpticalAlignmentBiphase`.
pub open spec fn spec_take_save_optical_alignment_biphase(flags: Map<Seq<char>, Seq<char>>, name: Seq<char>) -> Result<
    (SaveOpticalAlignmentBiphase, Map<Seq<char>, Seq<char>>),
    Seq<char>,
> {
    match spec_required(flags, name) {
        Err(e) => Err(e),
        Ok((raw, rest)) => match spec_parse_save_optical_alignment_biphase(raw) {
            Ok(v) => Ok((v, rest)),
            Err(e) => Err(e),
        },
    }
}

fn take_save_optical_alignment_biphase(args: &mut Args, name: &str) -> (r: Result<SaveOpticalAlignmentBiphase, Vec<char>>)
    requires
        old(args).wf(),
    ensures
        final(args).wf(),
        match r {
            Ok(v) => spec_take_save_optical_alignment_biphase(old(args).view(), name@) == Ok::<
                (SaveOpticalAlignmentBiphase, Map<Seq<char>, Seq<char>>),
                Seq<char>,
            >((v, final(args).view())),
            Err(e) => spec_take_save_optical_alignment_biphase(old(args).view(), name@) == Err::<
                (SaveOpticalAlignmentBiphase, Map<Seq<char>, Seq<char>>),
                Seq<char>,
            >(e@),
        },
{
    let raw = match args.required(name) {
        Ok(raw) => raw,
        Err(e) => return Err(e),
    };
    parse_save_optical_alignment_biphase(raw.as_slice())
}

/// The flag `name`, taken out of `flags` and read as a `SavePictureQuality`.
pub open spec fn spec_take_save_picture_quality(flags: Map<Seq<char>, Seq<char>>, name: Seq<char>) -> Result<
    (SavePictureQuality, Map<Seq<char>, Seq<char>>),
    Seq<char>,
> {
    match spec_required(flags, name) {
        Err(e) => Err(e),
        Ok((raw, rest)) => match spec_parse_save_picture_quality(raw) {
            Ok(v) => Ok((v, rest)),
            Err(e) => Err(e),
        },
    }
}

fn take_save_picture_quality(args: &mut Args, name: &str) -> (r: Result<SavePictureQuality, Vec<char>>)
    requires
        old(args).wf(),
    ensures
        final(args).wf(),
        match r {
            Ok(v) => spec_take_save_picture_quality(old(args).view(), name@) == Ok::<
                (SavePictureQuality, Map<Seq<char>, Seq<char>>),
                Seq<char>,
            >((v, final(args).view())),
            Err(e) => spec_take_save_picture_quality(old(args).view(), name@) == Err::<
                (SavePictureQuality, Map<Seq<char>, Seq<char>>),
                Seq<char>,
            >(e@),
        },
{
    let raw = match args.required(name) {
        Ok(raw) => raw,
        Err(e) => return Err(e),
    };
    parse_save_picture_quality(raw.as_slice())
}

/// The flag `name`, taken out of `flags` and read as a `ShutdownOption`.
pub open spec fn spec_take_shutdown_option(flags: Map<Seq<char>, Seq<char>>, name: Seq<char>) -> Result<
    (ShutdownOption, Map<Seq<char>, Seq<char>>),
    Seq<char>,
> {
    match spec_required(flags, name) {
        Err(e) => Err(e),
        Ok((raw, rest)) => match spec_parse_shutdown_option(raw) {
            Ok(v) => Ok((v, rest)),
            Err(e) => Err(e),
        },
    }
}

fn take_shutdown_option(args: &mut Args, name: &str) -> (r: Result<ShutdownOption, Vec<char>>)
    requires
        old(args).wf(),
    ensures
        final(args).wf(),
        match r {
            Ok(v) => spec_take_shutdown_option(old(args).view(), name@) == Ok::<
                (ShutdownOption, Map<Seq<char>, Seq<char>>),
                Seq<char>,
            >((v, final(args).view())),
            Err(e) => spec_take_shutdown_option(old(args).view(), name@) == Err::<
                (ShutdownOption, Map<Seq<char>, Seq<char>>),
                Seq<char>,
            >(e@),
        },
{
    let raw = match args.required(name) {
        Ok(raw) => raw,
        Err(e) => return Err(e),
    };
    parse_shutdown_option(raw.as_slice())
}

/// The flag `name`, taken out of `flags` and read as a `Flip`.
pub open spec fn spec_take_flip(flags: Map<Seq<char>, Seq<char>>, name: Seq<char>) -> Result<
    (Flip, Map<Seq<char>, Seq<char>>),
    Seq<char>,
> {
    match spec_required(flags, name) {
        Err(e) => Err(e),
        Ok((raw, rest)) => match spec_parse_flip(raw) {
            Ok(v) => Ok((v, rest)),
            Err(e) => Err(e),
        },
    }
}

fn take_flip(args: &mut Args, name: &str) -> (r: Result<Flip, Vec<char>>)
    requires
        old(args).wf(),
    ensures
        final(args).wf(),
        match r {
            Ok(v) => spec_take_flip(old(args).view(), name@) == Ok::<
                (Flip, Map<Seq<char>, Seq<char>>),
                Seq<char>,
            >((v, final(args).view())),
            Err(e) => spec_take_flip(old(args).view(), name@) == Err::<
                (Flip, Map<Seq<char>, Seq<char>>),
                Seq<char>,
            >(e@),
        },
{
    let raw = match args.required(name) {
        Ok(raw) => raw,
        Err(e) => return Err(e),
    };
    parse_flip(raw.as_slice())
}

/// The flag `name`, taken out of `flags` and read as a `SaveAdjustment`.
pub open spec fn spec_take_save_adjustment(flags: Map<Seq<char>, Seq<char>>, name: Seq<char>) -> Result<
    (SaveAdjustment, Map<Seq<char>, Seq<char>>),
    Seq<char>,
> {
    match spec_required(flags, name) {
        Err(e) => Err(e),
        Ok((raw, rest)) => match spec_parse_save_adjustment(raw) {
            Ok(v) => Ok((v, rest)),
            Err(e) => Err(e),
        },
    }
}

fn take_save_adjustment(args: &mut Args, name: &str) -> (r: Result<SaveAdjustment, Vec<char>>)
    requires
        old(args).wf(),
    ensures
        final(args).wf(),
        match r {
            Ok(v) => spec_take_save_adjustment(old(args).view(), name@) == Ok::<
                (SaveAdjustment, Map<Seq<char>, Seq<char>>),
                Seq<char>,
            >((v, final(args).view())),
            Err(e) => spec_take_save_adjustment(old(args).view(), name@) == Err::<
                (SaveAdjustment, Map<Seq<char>, Seq<char>>),
                Seq<char>,
            >(e@),
        },
{
    let raw = match args.required(name) {
        Ok(raw) => raw,
        Err(e) => return Err(e),
    };
    parse_save_adjustment(raw.as_slice())
}

/// The flag `name`, taken out of `flags` and read as a `DivisionTransmissionFormat`.
pub open spec fn spec_take_division_transmission_format(flags: Map<Seq<char>, Seq<char>>, name: Seq<char>) -> Result<
    (DivisionTransmissionFormat, Map<Seq<char>, Seq<char>>),
    Seq<char>,
> {
    match spec_required(flags, name) {
        Err(e) => Err(e),
        Ok((raw, rest)) => match spec_parse_division_transmission_format(raw) {
            Ok(v) => Ok((v, rest)),
            Err(e) => Err(e),
        },
    }
}

fn take_division_transmission_format(args: &mut Args, name: &str) -> (r: Result<DivisionTransmissionFormat, Vec<char>>)
    requires
        old(args).wf(),
    ensures
        final(args).wf(),
        match r {
            Ok(v) => spec_take_division_transmission_format(old(args).view(), name@) == Ok::<
                (DivisionTransmissionFormat, Map<Seq<char>, Seq<char>>),
                Seq<char>,
            >((v, final(args).view())),
            Err(e) => spec_take_division_transmission_format(old(args).view(), name@) == Err::<
                (DivisionTransmissionFormat, Map<Seq<char>, Seq<char>>),
                Seq<char>,
            >(e@),
        },
{
    let raw = match args.required(name) {
        Ok(raw) => raw,
        Err(e) => return Err(e),
    };
    parse_division_transmission_format(raw.as_slice())
}

/// The flag `name`, taken out of `flags` and read as a `TestPattern`.
pub open spec fn spec_take_test_pattern(flags: Map<Seq<char>, Seq<char>>, name: Seq<char>) -> Result<
    (TestPattern, Map<Seq<char>, Seq<char>>),
    Seq<char>,
> {
    match spec_required(flags, name) {
        Err(e) => Err(e),
        Ok((raw, rest)) => match spec_parse_test_pattern(raw) {
            Ok(v) => Ok((v, rest)),
            Err(e) => Err(e),
        },
    }
}

fn take_test_pattern(args: &mut Args, name: &str) -> (r: Result<TestPattern, Vec<char>>)
    requires
        old(args).wf(),
    ensures
        final(args).wf(),
        match r {
            Ok(v) => spec_take_test_pattern(old(args).view(), name@) == Ok::<
                (TestPattern, Map<Seq<char>, Seq<char>>),
                Seq<char>,
            >((v, final(args).view())),
            Err(e) => spec_take_test_pattern(old(args).view(), name@) == Err::<
                (TestPattern, Map<Seq<char>, Seq<char>>),
                Seq<char>,
            >(e@),
        },
{
    let raw = match args.required(name) {
        Ok(raw) => raw,
        Err(e) => return Err(e),
    };
    parse_test_pattern(raw.as_slice())
}

// ---------------------------------------------------------------------------
// One function per command
// ---------------------------------------------------------------------------

/// Frame of the `startinput` command built from its flags.
pub open spec fn spec_command_start_input(flags: Map<Seq<char>, Seq<char>>) -> Result<Seq<u8>, Seq<char>> {
    spec_finish(flags, StartInput.spec_to_bytes())
}

fn command_start_input(args: &mut Args) -> (r: Result<Vec<u8>, Vec<char>>)
    requires
        old(args).wf(),
    ensures
        bytes_outcome(r, spec_command_start_input(old(args).view())),
{
    request_bytes(&StartInput, args)
}

/// Frame of the `stopinput` command built from its flags.
pub open spec fn spec_command_stop_input(flags: Map<Seq<char>, Seq<char>>) -> Result<Seq<u8>, Seq<char>> {
    spec_finish(flags, StopInput.spec_to_bytes())
}

fn command_stop_input(args: &mut Args) -> (r: Result<Vec<u8>, Vec<char>>)
    requires
        old(args).wf(),
    ensures
        bytes_outcome(r, spec_command_stop_input(old(args).view())),
{
    request_bytes(&StopInput, args)
}

/// Frame of the `stopinputspecially` command built from its flags.
pub open spec fn spec_command_stop_input_specially(flags: Map<Seq<char>, Seq<char>>) -> Result<Seq<u8>, Seq<char>> {
    match spec_take_stopped_output(flags, "output"@) {
        Err(e) => Err(e),
        Ok((output, f1)) => {
            spec_finish(f1, StopInputSpecially { output: output }.spec_to_bytes())
        },
    }
}

fn command_stop_input_specially(args: &mut Args) -> (r: Result<Vec<u8>, Vec<char>>)
    requires
        old(args).wf(),
    ensures
        bytes_outcome(r, spec_command_stop_input_specially(old(args).view())),
{
    let output = match take_stopped_output(args, "output") {
        Ok(v) => v,
        Err(e) => return Err(e),
    };
    request_bytes(&StopInputSpecially { output }, args)
}

/// Frame of the `muteunmutechangeoutput` command built from its flags.
pub open spec fn spec_command_mute_unmute_change_output(flags: Map<Seq<char>, Seq<char>>) -> Result<Seq<u8>, Seq<char>> {
    match spec_take_mute_output(flags, "output"@) {
        Err(e) => Err(e),
        Ok((output, f1)) => {
            spec_finish(f1, MuteUnmuteChangeOutput { output: output }.spec_to_bytes())
        },
    }
}

fn command_mute_unmute_change_output(args: &mut Args) -> (r: Result<Vec<u8>, Vec<char>>)
    requires
        old(args).wf(),
    ensures
        bytes_outcome(r, spec_command_mute_unmute_change_output(old(args).view())),
{
    let output = match take_mute_output(args, "output") {
        Ok(v) => v,
        Err(e) => return Err(e),
    };
    request_bytes(&MuteUnmuteChangeOutput { output }, args)
}

/// Frame of the `saveuserparam` command built from its flags.
pub open spec fn spec_command_save_user_param(flags: Map<Seq<char>, Seq<char>>) -> Result<Seq<u8>, Seq<char>> {
    match spec_take_save_video_position(flags, "video-position"@) {
        Err(e) => Err(e),
        Ok((video_position, f1)) => {
            match spec_take_save_optical_alignment_biphase(f1, "optical-alignment-biphase"@) {
                Err(e) => Err(e),
                Ok((optical_alignment_biphase, f2)) => {
                    match spec_take_save_picture_quality(f2, "picture-quality"@) {
                        Err(e) => Err(e),
                        Ok((picture_quality, f3)) => {
                            spec_finish(f3, SaveUserParam { video_position, optical_alignment_biphase, picture_quality }.spec_to_bytes())
                        },
                    }
                },
            }
        },
    }
}

fn command_save_user_param(args: &mut Args) -> (r: Result<Vec<u8>, Vec<char>>)
    requires
        old(args).wf(),
    ensures
        bytes_outcome(r, spec_command_save_user_param(old(args).view())),
{
    let video_position = match take_save_video_position(args, "video-position") {
        Ok(v) => v,
        Err(e) => return Err(e),
    };
    let optical_alignment_biphase = match take_save_optical_alignment_biphase(args, "optical-alignment-biphase") {
        Ok(v) => v,
        Err(e) => return Err(e),
    };
    let picture_quality = match take_save_picture_quality(args, "picture-quality") {
        Ok(v) => v,
        Err(e) => return Err(e),
    };
    request_bytes(&SaveUserParam { video_position, optical_alignment_biphase, picture_quality }, args)
}

/// Frame of the `initializeuserparam` command built from its flags.
pub open spec fn spec_command_initialize_user_param(flags: Map<Seq<char>, Seq<char>>) -> Result<Seq<u8>, Seq<char>> {
    spec_finish(flags, InitializeUserParam.spec_to_bytes())
}

fn command_initialize_user_param(args: &mut Args) -> (r: Result<Vec<u8>, Vec<char>>)
    requires
        old(args).wf(),
    ensures
        bytes_outcome(r, spec_command_initialize_user_param(old(args).view())),
{
    request_bytes(&InitializeUserParam, args)
}

/// Frame of the `shutdownreboot` command built from its flags.
pub open spec fn spec_command_shutdown_reboot(flags: Map<Seq<char>, Seq<char>>) -> Result<Seq<u8>, Seq<char>> {
    match spec_take_shutdown_option(flags, "option"@) {
        Err(e) => Err(e),
        Ok((option, f1)) => {
            spec_finish(f1, ShutdownReboot { option }.spec_to_bytes())
        },
    }
}

fn command_shutdown_reboot(args: &mut Args) -> (r: Result<Vec<u8>, Vec<char>>)
    requires
        old(args).wf(),
    ensures
        bytes_outcome(r, spec_command_shutdown_reboot(old(args).view())),
{
    let option = match take_shutdown_option(args, "option") {
        Ok(v) => v,
        Err(e) => return Err(e),
    };
    request_bytes(&ShutdownReboot { option }, args)
}

/// Frame of the `getvideooutputposition` command built from its flags.
pub open spec fn spec_command_get_video_output_position(flags: Map<Seq<char>, Seq<char>>) -> Result<Seq<u8>, Seq<char>> {
    spec_finish(flags, GetVideoOutputPosition.spec_to_bytes())
}

fn command_get_video_output_position(args: &mut Args) -> (r: Result<Vec<u8>, Vec<char>>)
    requires
        old(args).wf(),
    ensures
        bytes_outcome(r, spec_command_get_video_output_position(old(args).view())),
{
    request_bytes(&GetVideoOutputPosition, args)
}

/// Frame of the `setvideooutputposition` command built from its flags.
pub open spec fn spec_command_set_video_output_position(flags: Map<Seq<char>, Seq<char>>) -> Result<Seq<u8>, Seq<char>> {
    match spec_take_i8(flags, "pan"@) {
        Err(e) => Err(e),
        Ok((pan, f1)) => {
            match spec_take_i8(f1, "tilt"@) {
                Err(e) => Err(e),
                Ok((tilt, f2)) => {
                    match spec_take_flip(f2, "flip"@) {
                        Err(e) => Err(e),
                        Ok((flip, f3)) => {
                            spec_finish(f3, SetVideoOutputPosition { pan: Pan(pan), tilt: Tilt(tilt), flip }.spec_to_bytes())
                        },
                    }
                },
            }
        },
    }
}

fn command_set_video_output_position(args: &mut Args) -> (r: Result<Vec<u8>, Vec<char>>)
    requires
        old(args).wf(),
    ensures
        bytes_outcome(r, spec_command_set_video_output_position(old(args).view())),
{
    let pan = match take_i8(args, "pan") {
        Ok(v) => v,
        Err(e) => return Err(e),
    };
    let tilt = match take_i8(args, "tilt") {
        Ok(v) => v,
        Err(e) => return Err(e),
    };
    let flip = match take_flip(args, "flip") {
        Ok(v) => v,
        Err(e) => return Err(e),
    };
    request_bytes(&SetVideoOutputPosition { pan: Pan(pan), tilt: Tilt(tilt), flip }, args)
}

/// Frame of the `getopticalalignment` command built from its flags.
pub open spec fn spec_command_get_optical_alignment(flags: Map<Seq<char>, Seq<char>>) -> Result<Seq<u8>, Seq<char>> {
    spec_finish(flags, GetOpticalAlignment.spec_to_bytes())
}

fn command_get_optical_alignment(args: &mut Args) -> (r: Result<Vec<u8>, Vec<char>>)
    requires
        old(args).wf(),
    ensures
        bytes_outcome(r, spec_command_get_optical_alignment(old(args).view())),
{
    request_bytes(&GetOpticalAlignment, args)
}

/// Frame of the `setopticalalignment` command built from its flags.
pub open spec fn spec_command_set_optical_alignment(flags: Map<Seq<char>, Seq<char>>) -> Result<Seq<u8>, Seq<char>> {
    match spec_take_i8(flags, "r0-horizontal"@) {
        Err(e) => Err(e),
        Ok((r0_horizontal, f1)) => {
            match spec_take_i8(f1, "r1-horizontal"@) {
                Err(e) => Err(e),
                Ok((r1_horizontal, f2)) => {
                    match spec_take_i8(f2, "g0-horizontal"@) {
                        Err(e) => Err(e),
                        Ok((g0_horizontal, f3)) => {
                            match spec_take_i8(f3, "g1-horizontal"@) {
                                Err(e) => Err(e),
                                Ok((g1_horizontal, f4)) => {
                                    match spec_take_i8(f4, "b-horizontal"@) {
                                        Err(e) => Err(e),
                                        Ok((b_horizontal, f5)) => {
                                            match spec_take_u8(f5, "r0-vertical"@) {
                                                Err(e) => Err(e),
                                                Ok((r0_vertical, f6)) => {
                                                    match spec_take_u8(f6, "r1-vertical"@) {
                                                        Err(e) => Err(e),
                                                        Ok((r1_vertical, f7)) => {
                                                            match spec_take_u8(f7, "g0-vertical"@) {
                                                                Err(e) => Err(e),
                                                                Ok((g0_vertical, f8)) => {
                                                                    match spec_take_u8(f8, "g1-vertical"@) {
                                                                        Err(e) => Err(e),
                                                                        Ok((g1_vertical, f9)) => {
                                                                            match spec_take_u8(f9, "b-vertical"@) {
                                                                                Err(e) => Err(e),
                                                                                Ok((b_vertical, f10)) => {
                                                                                    spec_finish(f10, SetOpticalAlignment { alignment: OpticalAlignment { r0_horizontal: I8Byte(r0_horizontal), r1_horizontal: I8Byte(r1_horizontal), g0_horizontal: I8Byte(g0_horizontal), g1_horizontal: I8Byte(g1_horizontal), b_horizontal: I8Byte(b_horizontal), r0_vertical, r1_vertical, g0_vertical, g1_vertical, b_vertical } }.spec_to_bytes())
                                                                                },
                                                                            }
                                                                        },
                                                                    }
                                                                },
                                                            }
                                                        },
                                                    }
                                                },
                                            }
                                        },
                                    }
                                },
                            }
                        },
                    }
                },
            }
        },
    }
}

fn command_set_optical_alignment(args: &mut Args) -> (r: Result<Vec<u8>, Vec<char>>)
    requires
        old(args).wf(),
    ensures
        bytes_outcome(r, spec_command_set_optical_alignment(old(args).view())),
{
    let r0_horizontal = match take_i8(args, "r0-horizontal") {
        Ok(v) => v,
        Err(e) => return Err(e),
    };
    let r1_horizontal = match take_i8(args, "r1-horizontal") {
        Ok(v) => v,
        Err(e) => return Err(e),
    };
    let g0_horizontal = match take_i8(args, "g0-horizontal") {
        Ok(v) => v,
        Err(e) => return Err(e),
    };
    let g1_horizontal = match take_i8(args, "g1-horizontal") {
        Ok(v) => v,
        Err(e) => return Err(e),
    };
    let b_horizontal = match take_i8(args, "b-horizontal") {
        Ok(v) => v,
        Err(e) => return Err(e),
    };
    let r0_vertical = match take_u8(args, "r0-vertical") {
        Ok(v) => v,
        Err(e) => return Err(e),
    };
    let r1_vertical = match take_u8(args, "r1-vertical") {
        Ok(v) => v,
        Err(e) => return Err(e),
    };
    let g0_vertical = match take_u8(args, "g0-vertical") {
        Ok(v) => v,
        Err(e) => return Err(e),
    };
    let g1_vertical = match take_u8(args, "g1-vertical") {
        Ok(v) => v,
        Err(e) => return Err(e),
    };
    let b_vertical = match take_u8(args, "b-vertical") {
        Ok(v) => v,
        Err(e) => return Err(e),
    };
    request_bytes(&SetOpticalAlignment { alignment: OpticalAlignment { r0_horizontal: I8Byte(r0_horizontal), r1_horizontal: I8Byte(r1_horizontal), g0_horizontal: I8Byte(g0_horizontal), g1_horizontal: I8Byte(g1_horizontal), b_horizontal: I8Byte(b_horizontal), r0_vertical, r1_vertical, g0_vertical, g1_vertical, b_vertical } }, args)
}

/// Frame of the `getbiphase` command built from its flags.
pub open spec fn spec_command_get_biphase(flags: Map<Seq<char>, Seq<char>>) -> Result<Seq<u8>, Seq<char>> {
    spec_finish(flags, GetBiphase.spec_to_bytes())
}

fn command_get_biphase(args: &mut Args) -> (r: Result<Vec<u8>, Vec<char>>)
    requires
        old(args).wf(),
    ensures
        bytes_outcome(r, spec_command_get_biphase(old(args).view())),
{
    request_bytes(&GetBiphase, args)
}

/// Frame of the `setbiphase` command built from its flags.
pub open spec fn spec_command_set_biphase(flags: Map<Seq<char>, Seq<char>>) -> Result<Seq<u8>, Seq<char>> {
    match spec_take_u32(flags, "amount"@) {
        Err(e) => Err(e),
        Ok((amount, f1)) => {
            spec_finish(f1, SetBiphase { amount }.spec_to_bytes())
        },
    }
}

fn command_set_biphase(args: &mut Args) -> (r: Result<Vec<u8>, Vec<char>>)
    requires
        old(args).wf(),
    ensures
        bytes_outcome(r, spec_command_set_biphase(old(args).view())),
{
    let amount = match take_u32(args, "amount") {
        Ok(v) => v,
        Err(e) => return Err(e),
    };
    request_bytes(&SetBiphase { amount }, args)
}

/// Frame of the `seteasyopticaladjustmentcontrol` command built from its flags.
pub open spec fn spec_command_set_easy_optical_adjustment_control(flags: Map<Seq<char>, Seq<char>>) -> Result<Seq<u8>, Seq<char>> {
    spec_finish(flags, SetEasyOpticalAdjustmentControl.spec_to_bytes())
}

fn command_set_easy_optical_adjustment_control(args: &mut Args) -> (r: Result<Vec<u8>, Vec<char>>)
    requires
        old(args).wf(),
    ensures
        bytes_outcome(r, spec_command_set_easy_optical_adjustment_control(old(args).view())),
{
    request_bytes(&SetEasyOpticalAdjustmentControl, args)
}

/// Frame of the `seteasyopticaladjustmentplus` command built from its flags.
pub open spec fn spec_command_set_easy_optical_adjustment_plus(flags: Map<Seq<char>, Seq<char>>) -> Result<Seq<u8>, Seq<char>> {
    spec_finish(flags, SetEasyOpticalAdjustmentPlus.spec_to_bytes())
}

fn command_set_easy_optical_adjustment_plus(args: &mut Args) -> (r: Result<Vec<u8>, Vec<char>>)
    requires
        old(args).wf(),
    ensures
        bytes_outcome(r, spec_command_set_easy_optical_adjustment_plus(old(args).view())),
{
    request_bytes(&SetEasyOpticalAdjustmentPlus, args)
}

/// Frame of the `seteasyopticaladjustmentminus` command built from its flags.
pub open spec fn spec_command_set_easy_optical_adjustment_minus(flags: Map<Seq<char>, Seq<char>>) -> Result<Seq<u8>, Seq<char>> {
    spec_finish(flags, SetEasyOpticalAdjustmentMinus.spec_to_bytes())
}

fn command_set_easy_optical_adjustment_minus(args: &mut Args) -> (r: Result<Vec<u8>, Vec<char>>)
    requires
        old(args).wf(),
    ensures
        bytes_outcome(r, spec_command_set_easy_optical_adjustment_minus(old(args).view())),
{
    request_bytes(&SetEasyOpticalAdjustmentMinus, args)
}

/// Frame of the `seteasyopticaladjustmentexit` command built from its flags.
pub open spec fn spec_command_set_easy_optical_adjustment_exit(flags: Map<Seq<char>, Seq<char>>) -> Result<Seq<u8>, Seq<char>> {
    match spec_take_save_adjustment(flags, "save"@) {
        Err(e) => Err(e),
        Ok((save, f1)) => {
            spec_finish(f1, SetEasyOpticalAdjustmentExit { save }.spec_to_bytes())
        },
    }
}

fn command_set_easy_optical_adjustment_exit(args: &mut Args) -> (r: Result<Vec<u8>, Vec<char>>)
    requires
        old(args).wf(),
    ensures
        bytes_outcome(r, spec_command_set_easy_optical_adjustment_exit(old(args).view())),
{
    let save = match take_save_adjustment(args, "save") {
        Ok(v) => v,
        Err(e) => return Err(e),
    };
    request_bytes(&SetEasyOpticalAdjustmentExit { save }, args)
}

/// Frame of the `seteasybiphaseadjustmentcontrol` command built from its flags.
pub open spec fn spec_command_set_easy_biphase_adjustment_control(flags: Map<Seq<char>, Seq<char>>) -> Result<Seq<u8>, Seq<char>> {
    spec_finish(flags, SetEasyBiphaseAdjustmentControl.spec_to_bytes())
}

fn command_set_easy_biphase_adjustment_control(args: &mut Args) -> (r: Result<Vec<u8>, Vec<char>>)
    requires
        old(args).wf(),
    ensures
        bytes_outcome(r, spec_command_set_easy_biphase_adjustment_control(old(args).view())),
{
    request_bytes(&SetEasyBiphaseAdjustmentControl, args)
}

/// Frame of the `seteasybiphaseadjustmentplus` command built from its flags.
pub open spec fn spec_command_set_easy_biphase_adjustment_plus(flags: Map<Seq<char>, Seq<char>>) -> Result<Seq<u8>, Seq<char>> {
    spec_finish(flags, SetEasyBiphaseAdjustmentPlus.spec_to_bytes())
}

fn command_set_easy_biphase_adjustment_plus(args: &mut Args) -> (r: Result<Vec<u8>, Vec<char>>)
    requires
        old(args).wf(),
    ensures
        bytes_outcome(r, spec_command_set_easy_biphase_adjustment_plus(old(args).view())),
{
    request_bytes(&SetEasyBiphaseAdjustmentPlus, args)
}

/// Frame of the `seteasybiphaseadjustmentminus` command built from its flags.
pub open spec fn spec_command_set_easy_biphase_adjustment_minus(flags: Map<Seq<char>, Seq<char>>) -> Result<Seq<u8>, Seq<char>> {
    spec_finish(flags, SetEasyBiphaseAdjustmentMinus.spec_to_bytes())
}

fn command_set_easy_biphase_adjustment_minus(args: &mut Args) -> (r: Result<Vec<u8>, Vec<char>>)
    requires
        old(args).wf(),
    ensures
        bytes_outcome(r, spec_command_set_easy_biphase_adjustment_minus(old(args).view())),
{
    request_bytes(&SetEasyBiphaseAdjustmentMinus, args)
}

/// Frame of the `seteasybiphaseadjustmentexit` command built from its flags.
pub open spec fn spec_command_set_easy_biphase_adjustment_exit(flags: Map<Seq<char>, Seq<char>>) -> Result<Seq<u8>, Seq<char>> {
    match spec_take_save_adjustment(flags, "save"@) {
        Err(e) => Err(e),
        Ok((save, f1)) => {
            spec_finish(f1, SetEasyBiphaseAdjustmentExit { save }.spec_to_bytes())
        },
    }
}

fn command_set_easy_biphase_adjustment_exit(args: &mut Args) -> (r: Result<Vec<u8>, Vec<char>>)
    requires
        old(args).wf(),
    ensures
        bytes_outcome(r, spec_command_set_easy_biphase_adjustment_exit(old(args).view())),
{
    let save = match take_save_adjustment(args, "save") {
        Ok(v) => v,
        Err(e) => return Err(e),
    };
    request_bytes(&SetEasyBiphaseAdjustmentExit { save }, args)
}

/// Frame of the `getallpicturequality` command built from its flags.
pub open spec fn spec_command_get_all_picture_quality(flags: Map<Seq<char>, Seq<char>>) -> Result<Seq<u8>, Seq<char>> {
    spec_finish(flags, GetAllPictureQuality.spec_to_bytes())
}

fn command_get_all_picture_quality(args: &mut Args) -> (r: Result<Vec<u8>, Vec<char>>)
    requires
        old(args).wf(),
    ensures
        bytes_outcome(r, spec_command_get_all_picture_quality(old(args).view())),
{
    request_bytes(&GetAllPictureQuality, args)
}

/// Frame of the `setallpicturequality` command built from its flags.
pub open spec fn spec_command_set_all_picture_quality(flags: Map<Seq<char>, Seq<char>>) -> Result<Seq<u8>, Seq<char>> {
    match spec_take_i8(flags, "contrast"@) {
        Err(e) => Err(e),
        Ok((contrast, f1)) => {
            match spec_take_i8(f1, "brightness"@) {
                Err(e) => Err(e),
                Ok((brightness, f2)) => {
                    match spec_take_i8(f2, "hue-u"@) {
                        Err(e) => Err(e),
                        Ok((hue_u, f3)) => {
                            match spec_take_i8(f3, "hue-v"@) {
                                Err(e) => Err(e),
                                Ok((hue_v, f4)) => {
                                    match spec_take_i8(f4, "saturation-u"@) {
                                        Err(e) => Err(e),
                                        Ok((saturation_u, f5)) => {
                                            match spec_take_i8(f5, "saturation-v"@) {
                                                Err(e) => Err(e),
                                                Ok((saturation_v, f6)) => {
                                                    match spec_take_u8(f6, "sharpness"@) {
                                                        Err(e) => Err(e),
                                                        Ok((sharpness, f7)) => {
                                                            spec_finish(f7, SetAllPictureQuality { picture_quality: PictureQuality { contrast, brightness, hue_u, hue_v, saturation_u, saturation_v, sharpness } }.spec_to_bytes())
                                                        },
                                                    }
                                                },
                                            }
                                        },
                                    }
                                },
                            }
                        },
                    }
                },
            }
        },
    }
}

fn command_set_all_picture_quality(args: &mut Args) -> (r: Result<Vec<u8>, Vec<char>>)
    requires
        old(args).wf(),
    ensures
        bytes_outcome(r, spec_command_set_all_picture_quality(old(args).view())),
{
    let contrast = match take_i8(args, "contrast") {
        Ok(v) => v,
        Err(e) => return Err(e),
    };
    let brightness = match take_i8(args, "brightness") {
        Ok(v) => v,
        Err(e) => return Err(e),
    };
    let hue_u = match take_i8(args, "hue-u") {
        Ok(v) => v,
        Err(e) => return Err(e),
    };
    let hue_v = match take_i8(args, "hue-v") {
        Ok(v) => v,
        Err(e) => return Err(e),
    };
    let saturation_u = match take_i8(args, "saturation-u") {
        Ok(v) => v,
        Err(e) => return Err(e),
    };
    let saturation_v = match take_i8(args, "saturation-v") {
        Ok(v) => v,
        Err(e) => return Err(e),
    };
    let sharpness = match take_u8(args, "sharpness") {
        Ok(v) => v,
        Err(e) => return Err(e),
    };
    request_bytes(&SetAllPictureQuality { picture_quality: PictureQuality { contrast, brightness, hue_u, hue_v, saturation_u, saturation_v, sharpness } }, args)
}

/// Frame of the `getbrightness` command built from its flags.
pub open spec fn spec_command_get_brightness(flags: Map<Seq<char>, Seq<char>>) -> Result<Seq<u8>, Seq<char>> {
    spec_finish(flags, GetBrightness.spec_to_bytes())
}

fn command_get_brightness(args: &mut Args) -> (r: Result<Vec<u8>, Vec<char>>)
    requires
        old(args).wf(),
    ensures
        bytes_outcome(r, spec_command_get_brightness(old(args).view())),
{
    request_bytes(&GetBrightness, args)
}

/// Frame of the `setbrightness` command built from its flags.
pub open spec fn spec_command_set_brightness(flags: Map<Seq<char>, Seq<char>>) -> Result<Seq<u8>, Seq<char>> {
    match spec_take_i8(flags, "brightness"@) {
        Err(e) => Err(e),
        Ok((brightness, f1)) => {
            spec_finish(f1, SetBrightness { brightness }.spec_to_bytes())
        },
    }
}

fn command_set_brightness(args: &mut Args) -> (r: Result<Vec<u8>, Vec<char>>)
    requires
        old(args).wf(),
    ensures
        bytes_outcome(r, spec_command_set_brightness(old(args).view())),
{
    let brightness = match take_i8(args, "brightness") {
        Ok(v) => v,
        Err(e) => return Err(e),
    };
    request_bytes(&SetBrightness { brightness }, args)
}

/// Frame of the `getcontrast` command built from its flags.
pub open spec fn spec_command_get_contrast(flags: Map<Seq<char>, Seq<char>>) -> Result<Seq<u8>, Seq<char>> {
    spec_finish(flags, GetContrast.spec_to_bytes())
}

fn command_get_contrast(args: &mut Args) -> (r: Result<Vec<u8>, Vec<char>>)
    requires
        old(args).wf(),
    ensures
        bytes_outcome(r, spec_command_get_contrast(old(args).view())),
{
    request_bytes(&GetContrast, args)
}

/// Frame of the `setcontrast` command built from its flags.
pub open spec fn spec_command_set_contrast(flags: Map<Seq<char>, Seq<char>>) -> Result<Seq<u8>, Seq<char>> {
    match spec_take_i8(flags, "contrast"@) {
        Err(e) => Err(e),
        Ok((contrast, f1)) => {
            spec_finish(f1, SetContrast { contrast }.spec_to_bytes())
        },
    }
}

fn command_set_contrast(args: &mut Args) -> (r: Result<Vec<u8>, Vec<char>>)
    requires
        old(args).wf(),
    ensures
        bytes_outcome(r, spec_command_set_contrast(old(args).view())),
{
    let contrast = match take_i8(args, "contrast") {
        Ok(v) => v,
        Err(e) => return Err(e),
    };
    request_bytes(&SetContrast { contrast }, args)
}

/// Frame of the `gethue` command built from its flags.
pub open spec fn spec_command_get_hue(flags: Map<Seq<char>, Seq<char>>) -> Result<Seq<u8>, Seq<char>> {
    spec_finish(flags, GetHue.spec_to_bytes())
}

fn command_get_hue(args: &mut Args) -> (r: Result<Vec<u8>, Vec<char>>)
    requires
        old(args).wf(),
    ensures
        bytes_outcome(r, spec_command_get_hue(old(args).view())),
{
    request_bytes(&GetHue, args)
}

/// Frame of the `sethue` command built from its flags.
pub open spec fn spec_command_set_hue(flags: Map<Seq<char>, Seq<char>>) -> Result<Seq<u8>, Seq<char>> {
    match spec_take_i8(flags, "hue-u"@) {
        Err(e) => Err(e),
        Ok((hue_u, f1)) => {
            match spec_take_i8(f1, "hue-v"@) {
                Err(e) => Err(e),
                Ok((hue_v, f2)) => {
                    spec_finish(f2, SetHue { hue_u, hue_v }.spec_to_bytes())
                },
            }
        },
    }
}

fn command_set_hue(args: &mut Args) -> (r: Result<Vec<u8>, Vec<char>>)
    requires
        old(args).wf(),
    ensures
        bytes_outcome(r, spec_command_set_hue(old(args).view())),
{
    let hue_u = match take_i8(args, "hue-u") {
        Ok(v) => v,
        Err(e) => return Err(e),
    };
    let hue_v = match take_i8(args, "hue-v") {
        Ok(v) => v,
        Err(e) => return Err(e),
    };
    request_bytes(&SetHue { hue_u, hue_v }, args)
}

/// Frame of the `getsaturation` command built from its flags.
pub open spec fn spec_command_get_saturation(flags: Map<Seq<char>, Seq<char>>) -> Result<Seq<u8>, Seq<char>> {
    spec_finish(flags, GetSaturation.spec_to_bytes())
}

fn command_get_saturation(args: &mut Args) -> (r: Result<Vec<u8>, Vec<char>>)
    requires
        old(args).wf(),
    ensures
        bytes_outcome(r, spec_command_get_saturation(old(args).view())),
{
    request_bytes(&GetSaturation, args)
}

/// Frame of the `setsaturation` command built from its flags.
pub open spec fn spec_command_set_saturation(flags: Map<Seq<char>, Seq<char>>) -> Result<Seq<u8>, Seq<char>> {
    match spec_take_i8(flags, "saturation-u"@) {
        Err(e) => Err(e),
        Ok((saturation_u, f1)) => {
            match spec_take_i8(f1, "saturation-v"@) {
                Err(e) => Err(e),
                Ok((saturation_v, f2)) => {
                    spec_finish(f2, SetSaturation { saturation_u, saturation_v }.spec_to_bytes())
                },
            }
        },
    }
}

fn command_set_saturation(args: &mut Args) -> (r: Result<Vec<u8>, Vec<char>>)
    requires
        old(args).wf(),
    ensures
        bytes_outcome(r, spec_command_set_saturation(old(args).view())),
{
    let saturation_u = match take_i8(args, "saturation-u") {
        Ok(v) => v,
        Err(e) => return Err(e),
    };
    let saturation_v = match take_i8(args, "saturation-v") {
        Ok(v) => v,
        Err(e) => return Err(e),
    };
    request_bytes(&SetSaturation { saturation_u, saturation_v }, args)
}

/// Frame of the `getsharpness` command built from its flags.
pub open spec fn spec_command_get_sharpness(flags: Map<Seq<char>, Seq<char>>) -> Result<Seq<u8>, Seq<char>> {
    spec_finish(flags, GetSharpness.spec_to_bytes())
}

fn command_get_sharpness(args: &mut Args) -> (r: Result<Vec<u8>, Vec<char>>)
    requires
        old(args).wf(),
    ensures
        bytes_outcome(r, spec_command_get_sharpness(old(args).view())),
{
    request_bytes(&GetSharpness, args)
}

/// Frame of the `setsharpness` command built from its flags.
pub open spec fn spec_command_set_sharpness(flags: Map<Seq<char>, Seq<char>>) -> Result<Seq<u8>, Seq<char>> {
    match spec_take_u8(flags, "sharpness"@) {
        Err(e) => Err(e),
        Ok((sharpness, f1)) => {
            spec_finish(f1, SetSharpness { sharpness }.spec_to_bytes())
        },
    }
}

fn command_set_sharpness(args: &mut Args) -> (r: Result<Vec<u8>, Vec<char>>)
    requires
        old(args).wf(),
    ensures
        bytes_outcome(r, spec_command_set_sharpness(old(args).view())),
{
    let sharpness = match take_u8(args, "sharpness") {
        Ok(v) => v,
        Err(e) => return Err(e),
    };
    request_bytes(&SetSharpness { sharpness }, args)
}

/// Frame of the `updatefwimage` command built from its flags.
pub open spec fn spec_command_update_fw_image(flags: Map<Seq<char>, Seq<char>>) -> Result<Seq<u8>, Seq<char>> {
    match spec_take_u32(flags, "data-size"@) {
        Err(e) => Err(e),
        Ok((data_size, f1)) => {
            match spec_take_u32(f1, "checksum"@) {
                Err(e) => Err(e),
                Ok((checksum, f2)) => {
                    match spec_take_bytes(f2, "data"@) {
                        Err(e) => Err(e),
                        Ok((data, f3)) => {
                            spec_finish(f3, update_frame(0x82, data_size, checksum, data))
                        },
                    }
                },
            }
        },
    }
}

fn command_update_fw_image(args: &mut Args) -> (r: Result<Vec<u8>, Vec<char>>)
    requires
        old(args).wf(),
    ensures
        bytes_outcome(r, spec_command_update_fw_image(old(args).view())),
{
    let data_size = match take_u32(args, "data-size") {
        Ok(v) => v,
        Err(e) => return Err(e),
    };
    let checksum = match take_u32(args, "checksum") {
        Ok(v) => v,
        Err(e) => return Err(e),
    };
    let data = match take_bytes(args, "data") {
        Ok(v) => v,
        Err(e) => return Err(e),
    };
    request_bytes(&UpdateFwImage { data_size, checksum, data }, args)
}

/// Frame of the `updatepicturedata` command built from its flags.
pub open spec fn spec_command_update_picture_data(flags: Map<Seq<char>, Seq<char>>) -> Result<Seq<u8>, Seq<char>> {
    match spec_take_u32(flags, "data-size"@) {
        Err(e) => Err(e),
        Ok((data_size, f1)) => {
            match spec_take_u32(f1, "checksum"@) {
                Err(e) => Err(e),
                Ok((checksum, f2)) => {
                    match spec_take_bytes(f2, "data"@) {
                        Err(e) => Err(e),
                        Ok((data, f3)) => {
                            spec_finish(f3, update_frame(0x84, data_size, checksum, data))
                        },
                    }
                },
            }
        },
    }
}

fn command_update_picture_data(args: &mut Args) -> (r: Result<Vec<u8>, Vec<char>>)
    requires
        old(args).wf(),
    ensures
        bytes_outcome(r, spec_command_update_picture_data(old(args).view())),
{
    let data_size = match take_u32(args, "data-size") {
        Ok(v) => v,
        Err(e) => return Err(e),
    };
    let checksum = match take_u32(args, "checksum") {
        Ok(v) => v,
        Err(e) => return Err(e),
    };
    let data = match take_bytes(args, "data") {
        Ok(v) => v,
        Err(e) => return Err(e),
    };
    request_bytes(&UpdatePictureData { data_size, checksum, data }, args)
}

/// Frame of the `divisiontransmissionupdatefwimage` command built from its flags.
pub open spec fn spec_command_division_transmission_update_fw_image(flags: Map<Seq<char>, Seq<char>>) -> Result<Seq<u8>, Seq<char>> {
    match spec_take_u32(flags, "data-size"@) {
        Err(e) => Err(e),
        Ok((data_size, f1)) => {
            match spec_take_u32(f1, "checksum"@) {
                Err(e) => Err(e),
                Ok((checksum, f2)) => {
                    match spec_take_division_transmission_format(f2, "format"@) {
                        Err(e) => Err(e),
                        Ok((format, f3)) => {
                            match spec_take_u16(f3, "max-block-number"@) {
                                Err(e) => Err(e),
                                Ok((max_block_number, f4)) => {
                                    spec_finish(f4, DivisionTransmissionUpdateFwImage { data_size, checksum, format, max_block_number }.spec_to_bytes())
                                },
                            }
                        },
                    }
                },
            }
        },
    }
}

fn command_division_transmission_update_fw_image(args: &mut Args) -> (r: Result<Vec<u8>, Vec<char>>)
    requires
        old(args).wf(),
    ensures
        bytes_outcome(r, spec_command_division_transmission_update_fw_image(old(args).view())),
{
    let data_size = match take_u32(args, "data-size") {
        Ok(v) => v,
        Err(e) => return Err(e),
    };
    let checksum = match take_u32(args, "checksum") {
        Ok(v) => v,
        Err(e) => return Err(e),
    };
    let format = match take_division_transmission_format(args, "format") {
        Ok(v) => v,
        Err(e) => return Err(e),
    };
    let max_block_number = match take_u16(args, "max-block-number") {
        Ok(v) => v,
        Err(e) => return Err(e),
    };
    request_bytes(&DivisionTransmissionUpdateFwImage { data_size, checksum, format, max_block_number }, args)
}

/// Frame of the `divisiontransmissionupdatepicturedata` command built from its flags.
pub open spec fn spec_command_division_transmission_update_picture_data(flags: Map<Seq<char>, Seq<char>>) -> Result<Seq<u8>, Seq<char>> {
    match spec_take_u32(flags, "data-size"@) {
        Err(e) => Err(e),
        Ok((data_size, f1)) => {
            match spec_take_u32(f1, "checksum"@) {
                Err(e) => Err(e),
                Ok((checksum, f2)) => {
                    match spec_take_division_transmission_format(f2, "format"@) {
                        Err(e) => Err(e),
                        Ok((format, f3)) => {
                            match spec_take_u16(f3, "max-block-number"@) {
                                Err(e) => Err(e),
                                Ok((max_block_number, f4)) => {
                                    spec_finish(f4, DivisionTransmissionUpdatePictureData { data_size, checksum, format, max_block_number }.spec_to_bytes())
                                },
                            }
                        },
                    }
                },
            }
        },
    }
}

fn command_division_transmission_update_picture_data(args: &mut Args) -> (r: Result<Vec<u8>, Vec<char>>)
    requires
        old(args).wf(),
    ensures
        bytes_outcome(r, spec_command_division_transmission_update_picture_data(old(args).view())),
{
    let data_size = match take_u32(args, "data-size") {
        Ok(v) => v,
        Err(e) => return Err(e),
    };
    let checksum = match take_u32(args, "checksum") {
        Ok(v) => v,
        Err(e) => return Err(e),
    };
    let format = match take_division_transmission_format(args, "format") {
        Ok(v) => v,
        Err(e) => return Err(e),
    };
    let max_block_number = match take_u16(args, "max-block-number") {
        Ok(v) => v,
        Err(e) => return Err(e),
    };
    request_bytes(&DivisionTransmissionUpdatePictureData { data_size, checksum, format, max_block_number }, args)
}

/// Frame of the `divisiontransmissionupdatedata` command built from its flags.
pub open spec fn spec_command_division_transmission_update_data(flags: Map<Seq<char>, Seq<char>>) -> Result<Seq<u8>, Seq<char>> {
    match spec_take_division_transmission_format(flags, "format"@) {
        Err(e) => Err(e),
        Ok((format, f1)) => {
            match spec_take_u16(f1, "block-number"@) {
                Err(e) => Err(e),
                Ok((block_number, f2)) => {
                    match spec_take_bytes(f2, "data"@) {
                        Err(e) => Err(e),
                        Ok((data, f3)) => {
                            if data.len() > format.spec_block_size() {
                                Err(error_debug_text(CommandError::DivisionBlockTooLarge { max: format.spec_block_size(), actual: data.len() as usize }))
                            } else {
                                spec_finish(f3, DivisionTransmissionUpdateData::spec_frame(format, block_number, data))
                            }
                        },
                    }
                },
            }
        },
    }
}

fn command_division_transmission_update_data(args: &mut Args) -> (r: Result<Vec<u8>, Vec<char>>)
    requires
        old(args).wf(),
    ensures
        bytes_outcome(r, spec_command_division_transmission_update_data(old(args).view())),
{
    let format = match take_division_transmission_format(args, "format") {
        Ok(v) => v,
        Err(e) => return Err(e),
    };
    let block_number = match take_u16(args, "block-number") {
        Ok(v) => v,
        Err(e) => return Err(e),
    };
    let data = match take_bytes(args, "data") {
        Ok(v) => v,
        Err(e) => return Err(e),
    };
    let request = match DivisionTransmissionUpdateData::new(format, block_number, data) {
        Ok(request) => request,
        Err(e) => return Err(error_debug(e)),
    };
    request_bytes(&request, args)
}

/// Frame of the `gettemperature` command built from its flags.
pub open spec fn spec_command_get_temperature(flags: Map<Seq<char>, Seq<char>>) -> Result<Seq<u8>, Seq<char>> {
    spec_finish(flags, GetTemperature.spec_to_bytes())
}

fn command_get_temperature(args: &mut Args) -> (r: Result<Vec<u8>, Vec<char>>)
    requires
        old(args).wf(),
    ensures
        bytes_outcome(r, spec_command_get_temperature(old(args).view())),
{
    request_bytes(&GetTemperature, args)
}

/// Frame of the `gettime` command built from its flags.
pub open spec fn spec_command_get_time(flags: Map<Seq<char>, Seq<char>>) -> Result<Seq<u8>, Seq<char>> {
    spec_finish(flags, GetTime.spec_to_bytes())
}

fn command_get_time(args: &mut Args) -> (r: Result<Vec<u8>, Vec<char>>)
    requires
        old(args).wf(),
    ensures
        bytes_outcome(r, spec_command_get_time(old(args).view())),
{
    request_bytes(&GetTime, args)
}

/// Frame of the `getversion` command built from its flags.
pub open spec fn spec_command_get_version(flags: Map<Seq<char>, Seq<char>>) -> Result<Seq<u8>, Seq<char>> {
    spec_finish(flags, GetVersion.spec_to_bytes())
}

fn command_get_version(args: &mut Args) -> (r: Result<Vec<u8>, Vec<char>>)
    requires
        old(args).wf(),
    ensures
        bytes_outcome(r, spec_command_get_version(old(args).view())),
{
    request_bytes(&GetVersion, args)
}

/// Frame of the `outputtestpicture` command built from its flags.
pub open spec fn spec_command_output_test_picture(flags: Map<Seq<char>, Seq<char>>) -> Result<Seq<u8>, Seq<char>> {
    match spec_take_test_pattern(flags, "pattern"@) {
        Err(e) => Err(e),
        Ok((pattern, f1)) => {
            match spec_take_u8(f1, "setting"@) {
                Err(e) => Err(e),
                Ok((setting, f2)) => {
                    match spec_take_rgb(f2, "background-color"@) {
                        Err(e) => Err(e),
                        Ok((background_color, f3)) => {
                            match spec_take_rgb(f3, "foreground-color"@) {
                                Err(e) => Err(e),
                                Ok((foreground_color, f4)) => {
                                    spec_finish(f4, OutputTestPicture { pattern, setting, background_color, foreground_color }.spec_to_bytes())
                                },
                            }
                        },
                    }
                },
            }
        },
    }
}

fn command_output_test_picture(args: &mut Args) -> (r: Result<Vec<u8>, Vec<char>>)
    requires
        old(args).wf(),
    ensures
        bytes_outcome(r, spec_command_output_test_picture(old(args).view())),
{
    let pattern = match take_test_pattern(args, "pattern") {
        Ok(v) => v,
        Err(e) => return Err(e),
    };
    let setting = match take_u8(args, "setting") {
        Ok(v) => v,
        Err(e) => return Err(e),
    };
    let background_color = match take_rgb(args, "background-color") {
        Ok(v) => v,
        Err(e) => return Err(e),
    };
    let foreground_color = match take_rgb(args, "foreground-color") {
        Ok(v) => v,
        Err(e) => return Err(e),
    };
    request_bytes(&OutputTestPicture { pattern, setting, background_color, foreground_color }, args)
}

/// Frame of the `getlotnumber` command built from its flags.
pub open spec fn spec_command_get_lot_number(flags: Map<Seq<char>, Seq<char>>) -> Result<Seq<u8>, Seq<char>> {
    spec_finish(flags, GetLotNumber.spec_to_bytes())
}

fn command_get_lot_number(args: &mut Args) -> (r: Result<Vec<u8>, Vec<char>>)
    requires
        old(args).wf(),
    ensures
        bytes_outcome(r, spec_command_get_lot_number(old(args).view())),
{
    request_bytes(&GetLotNumber, args)
}

/// Frame of the `getserialnumber` command built from its flags.
pub open spec fn spec_command_get_serial_number(flags: Map<Seq<char>, Seq<char>>) -> Result<Seq<u8>, Seq<char>> {
    spec_finish(flags, GetSerialNumber.spec_to_bytes())
}

fn command_get_serial_number(args: &mut Args) -> (r: Result<Vec<u8>, Vec<char>>)
    requires
        old(args).wf(),
    ensures
        bytes_outcome(r, spec_command_get_serial_number(old(args).view())),
{
    request_bytes(&GetSerialNumber, args)
}

/// Frame of the `raw` command built from its flags.
pub open spec fn spec_command_raw(flags: Map<Seq<char>, Seq<char>>) -> Result<Seq<u8>, Seq<char>> {
    match spec_take_bytes(flags, "bytes"@) {
        Err(e) => Err(e),
        Ok((bytes, f1)) => {
            spec_finish(f1, bytes)
        },
    }
}

fn command_raw(args: &mut Args) -> (r: Result<Vec<u8>, Vec<char>>)
    requires
        old(args).wf(),
    ensures
        bytes_outcome(r, spec_command_raw(old(args).view())),
{
    let bytes = match take_bytes(args, "bytes") {
        Ok(v) => v,
        Err(e) => return Err(e),
    };
    match ensure_no_extra_args(args) {
        Ok(_) => Ok(bytes),
        Err(e) => Err(e),
    }
}

/// Frame for the (normalized) command name `cmd` built from its flags.
pub open spec fn spec_command_bytes(cmd: Seq<char>, flags: Map<Seq<char>, Seq<char>>) -> Result<Seq<u8>, Seq<char>> {
    if cmd == "startinput"@ {
        spec_command_start_input(flags)
    } else if cmd == "stopinput"@ {
        spec_command_stop_input(flags)
    } else if cmd == "stopinputspecially"@ {
        spec_command_stop_input_specially(flags)
    } else if cmd == "muteunmutechangeoutput"@ {
        spec_command_mute_unmute_change_output(flags)
    } else if cmd == "saveuserparam"@ {
        spec_command_save_user_param(flags)
    } else if cmd == "initializeuserparam"@ {
        spec_command_initialize_user_param(flags)
    } else if cmd == "shutdownreboot"@ || cmd == "shutdown"@ {
        spec_command_shutdown_reboot(flags)
    } else if cmd == "getvideooutputposition"@ {
        spec_command_get_video_output_position(flags)
    } else if cmd == "setvideooutputposition"@ {
        spec_command_set_video_output_position(flags)
    } else if cmd == "getopticalalignment"@ {
        spec_command_get_optical_alignment(flags)
    } else if cmd == "setopticalalignment"@ {
        spec_command_set_optical_alignment(flags)
    } else if cmd == "getbiphase"@ {
        spec_command_get_biphase(flags)
    } else if cmd == "setbiphase"@ {
        spec_command_set_biphase(flags)
    } else if cmd == "seteasyopticaladjustmentcontrol"@ {
        spec_command_set_easy_optical_adjustment_control(flags)
    } else if cmd == "seteasyopticaladjustmentplus"@ {
        spec_command_set_easy_optical_adjustment_plus(flags)
    } else if cmd == "seteasyopticaladjustmentminus"@ {
        spec_command_set_easy_optical_adjustment_minus(flags)
    } else if cmd == "seteasyopticaladjustmentexit"@ {
        spec_command_set_easy_optical_adjustment_exit(flags)
    } else if cmd == "seteasybiphaseadjustmentcontrol"@ {
        spec_command_set_easy_biphase_adjustment_control(flags)
    } else if cmd == "seteasybiphaseadjustmentplus"@ {
        spec_command_set_easy_biphase_adjustment_plus(flags)
    } else if cmd == "seteasybiphaseadjustmentminus"@ {
        spec_command_set_easy_biphase_adjustment_minus(flags)
    } else if cmd == "seteasybiphaseadjustmentexit"@ {
        spec_command_set_easy_biphase_adjustment_exit(flags)
    } else if cmd == "getallpicturequality"@ {
        spec_command_get_all_picture_quality(flags)
    } else if cmd == "setallpicturequality"@ {
        spec_command_set_all_picture_quality(flags)
    } else if cmd == "getbrightness"@ {
        spec_command_get_brightness(flags)
    } else if cmd == "setbrightness"@ {
        spec_command_set_brightness(flags)
    } else if cmd == "getcontrast"@ {
        spec_command_get_contrast(flags)
    } else if cmd == "setcontrast"@ {
        spec_command_set_contrast(flags)
    } else if cmd == "gethue"@ {
        spec_command_get_hue(flags)
    } else if cmd == "sethue"@ {
        spec_command_set_hue(flags)
    } else if cmd == "getsaturation"@ {
        spec_command_get_saturation(flags)
    } else if cmd == "setsaturation"@ {
        spec_command_set_saturation(flags)
    } else if cmd == "getsharpness"@ {
        spec_command_get_sharpness(flags)
    } else if cmd == "setsharpness"@ {
        spec_command_set_sharpness(flags)
    } else if cmd == "updatefwimage"@ {
        spec_command_update_fw_image(flags)
    } else if cmd == "updatepicturedata"@ {
        spec_command_update_picture_data(flags)
    } else if cmd == "divisiontransmissionupdatefwimage"@ {
        spec_command_division_transmission_update_fw_image(flags)
    } else if cmd == "divisiontransmissionupdatepicturedata"@ {
        spec_command_division_transmission_update_picture_data(flags)
    } else if cmd == "divisiontransmissionupdatedata"@ {
        spec_command_division_transmission_update_data(flags)
    } else if cmd == "gettemperature"@ {
        spec_command_get_temperature(flags)
    } else if cmd == "gettime"@ {
        spec_command_get_time(flags)
    } else if cmd == "getversion"@ {
        spec_command_get_version(flags)
    } else if cmd == "outputtestpicture"@ {
        spec_command_output_test_picture(flags)
    } else if cmd == "getlotnumber"@ {
        spec_command_get_lot_number(flags)
    } else if cmd == "getserialnumber"@ {
        spec_command_get_serial_number(flags)
    } else if cmd == "raw"@ {
        spec_command_raw(flags)
    } else {
        Err("unknown command '"@ + cmd + "'"@)
    }
}

fn command_bytes(cmd: &[char], args: &mut Args) -> (r: Result<Vec<u8>, Vec<char>>)
    requires
        old(args).wf(),
    ensures
        bytes_outcome(r, spec_command_bytes(cmd@, old(args).view())),
{
    if chars_eq_str(cmd, "startinput") {
        return command_start_input(args);
    }
    if chars_eq_str(cmd, "stopinput") {
        return command_stop_input(args);
    }
    if chars_eq_str(cmd, "stopinputspecially") {
        return command_stop_input_specially(args);
    }
    if chars_eq_str(cmd, "muteunmutechangeoutput") {
        return command_mute_unmute_change_output(args);
    }
    if chars_eq_str(cmd, "saveuserparam") {
        return command_save_user_param(args);
    }
    if chars_eq_str(cmd, "initializeuserparam") {
        return command_initialize_user_param(args);
    }
    if chars_eq_str(cmd, "shutdownreboot") || chars_eq_str(cmd, "shutdown") {
        return command_shutdown_reboot(args);
    }
    if chars_eq_str(cmd, "getvideooutputposition") {
        return command_get_video_output_position(args);
    }
    if chars_eq_str(cmd, "setvideooutputposition") {
        return command_set_video_output_position(args);
    }
    if chars_eq_str(cmd, "getopticalalignment") {
        return command_get_optical_alignment(args);
    }
    if chars_eq_str(cmd, "setopticalalignment") {
        return command_set_optical_alignment(args);
    }
    if chars_eq_str(cmd, "getbiphase") {
        return command_get_biphase(args);
    }
    if chars_eq_str(cmd, "setbiphase") {
        return command_set_biphase(args);
    }
    if chars_eq_str(cmd, "seteasyopticaladjustmentcontrol") {
        return command_set_easy_optical_adjustment_control(args);
    }
    if chars_eq_str(cmd, "seteasyopticaladjustmentplus") {
        return command_set_easy_optical_adjustment_plus(args);
    }
    if chars_eq_str(cmd, "seteasyopticaladjustmentminus") {
        return command_set_easy_optical_adjustment_minus(args);
    }
    if chars_eq_str(cmd, "seteasyopticaladjustmentexit") {
        return command_set_easy_optical_adjustment_exit(args);
    }
    if chars_eq_str(cmd, "seteasybiphaseadjustmentcontrol") {
        return command_set_easy_biphase_adjustment_control(args);
    }
    if chars_eq_str(cmd, "seteasybiphaseadjustmentplus") {
        return command_set_easy_biphase_adjustment_plus(args);
    }
    if chars_eq_str(cmd, "seteasybiphaseadjustmentminus") {
        return command_set_easy_biphase_adjustment_minus(args);
    }
    if chars_eq_str(cmd, "seteasybiphaseadjustmentexit") {
        return command_set_easy_biphase_adjustment_exit(args);
    }
    if chars_eq_str(cmd, "getallpicturequality") {
        return command_get_all_picture_quality(args);
    }
    if chars_eq_str(cmd, "setallpicturequality") {
        return command_set_all_picture_quality(args);
    }
    if chars_eq_str(cmd, "getbrightness") {
        return command_get_brightness(args);
    }
    if chars_eq_str(cmd, "setbrightness") {
        return command_set_brightness(args);
    }
    if chars_eq_str(cmd, "getcontrast") {
        return command_get_contrast(args);
    }
    if chars_eq_str(cmd, "setcontrast") {
        return command_set_contrast(args);
    }
    if chars_eq_str(cmd, "gethue") {
        return command_get_hue(args);
    }
    if chars_eq_str(cmd, "sethue") {
        return command_set_hue(args);
    }
    if chars_eq_str(cmd, "getsaturation") {
        return command_get_saturation(args);
    }
    if chars_eq_str(cmd, "setsaturation") {
        return command_set_saturation(args);
    }
    if chars_eq_str(cmd, "getsharpness") {
        return command_get_sharpness(args);
    }
    if chars_eq_str(cmd, "setsharpness") {
        return command_set_sharpness(args);
    }
    if chars_eq_str(cmd, "updatefwimage") {
        return command_update_fw_image(args);
    }
    if chars_eq_str(cmd, "updatepicturedata") {
        return command_update_picture_data(args);
    }
    if chars_eq_str(cmd, "divisiontransmissionupdatefwimage") {
        return command_division_transmission_update_fw_image(args);
    }
    if chars_eq_str(cmd, "divisiontransmissionupdatepicturedata") {
        return command_division_transmission_update_picture_data(args);
    }
    if chars_eq_str(cmd, "divisiontransmissionupdatedata") {
        return command_division_transmission_update_data(args);
    }
    if chars_eq_str(cmd, "gettemperature") {
        return command_get_temperature(args);
    }
    if chars_eq_str(cmd, "gettime") {
        return command_get_time(args);
    }
    if chars_eq_str(cmd, "getversion") {
        return command_get_version(args);
    }
    if chars_eq_str(cmd, "outputtestpicture") {
        return command_output_test_picture(args);
    }
    if chars_eq_str(cmd, "getlotnumber") {
        return command_get_lot_number(args);
    }
    if chars_eq_str(cmd, "getserialnumber") {
        return command_get_serial_number(args);
    }
    if chars_eq_str(cmd, "raw") {
        return command_raw(args);
    }
    let mut e = Vec::new();
    push_str(&mut e, "unknown command '");
    push_chars(&mut e, cmd);
    push_str(&mut e, "'");
    Err(e)
}

/// What a command line gives: nothing for a blank line or `help`, else the frame of the
/// named command built from its `--flag value` pairs.
pub open spec fn spec_parse_request_line(line: Seq<char>) -> Result<Option<Seq<u8>>, Seq<char>> {
    let words = runs(line, 0);
    if words.len() == 0 {
        Ok(None)
    } else {
        let cmd = normalized(words[0]);
        if cmd == "help"@ {
            Ok(None)
        } else {
            match flags_from(words.drop_first(), Map::empty()) {
                Err(e) => Err(e),
                Ok(flags) => match spec_command_bytes(cmd, flags) {
                    Ok(b) => Ok(Some(b)),
                    Err(e) => Err(e),
                },
            }
        }
    }
}

/// Whether the line asks for help (its first word is `help`).
pub open spec fn spec_is_help_line(line: Seq<char>) -> bool {
    runs(line, 0).len() > 0 && normalized(runs(line, 0)[0]) == "help"@
}

/// Builds the frame that a command line names, such as `set-brightness --brightness -5`.
pub fn parse_request_line(line: &str) -> (r: Result<Option<Vec<u8>>, String>)
    ensures
        match r {
            Ok(None) => spec_parse_request_line(line@) == Ok::<Option<Seq<u8>>, Seq<char>>(None),
            Ok(Some(b)) => spec_parse_request_line(line@) == Ok::<Option<Seq<u8>>, Seq<char>>(
                Some(b@),
            ) && b@.len() >= 1,
            Err(e) => spec_parse_request_line(line@) == Err::<Option<Seq<u8>>, Seq<char>>(e@),
        },
{
    proof {
        lemma_request_line_frame_nonempty(line@);
    }
    let chars = chars_of(line);
    let words = split_runs(chars.as_slice(), 0);
    if words.len() == 0 {
        return Ok(None);
    }
    let command = normalize_name(words[0].as_slice());
    if chars_eq_str(command.as_slice(), "help") {
        return Ok(None);
    }
    let rest = vstd::slice::slice_subrange(words.as_slice(), 1, words.len());
    assert(views(rest@) =~= views(words@).drop_first());
    let mut args = match Args::new(rest) {
        Ok(args) => args,
        Err(e) => return Err(string_from(e.as_slice())),
    };
    match command_bytes(command.as_slice(), &mut args) {
        Ok(b) => Ok(Some(b)),
        Err(e) => Err(string_from(e.as_slice())),
    }
}

/// Whether a command line asks for help, which `parse_request_line` answers with nothing.
pub fn is_help_line(line: &str) -> (help: bool)
    ensures
        help == spec_is_help_line(line@),
{
    let chars = chars_of(line);
    let words = split_runs(chars.as_slice(), 0);
    if words.len() == 0 {
        return false;
    }
    let command = normalize_name(words[0].as_slice());
    chars_eq_str(command.as_slice(), "help")
}


/// Reading several byte values gives one byte per part.
pub proof fn lemma_bytes_of_parts_len(parts: Seq<Seq<char>>)
    ensures
        bytes_of_parts(parts) matches Ok(b) ==> b.len() == parts.len(),
    decreases parts.len(),
{
    if parts.len() > 0 {
        lemma_bytes_of_parts_len(parts.drop_first());
    }
}

/// Byte-list text that is read gives at least one byte.
pub proof fn lemma_parse_bytes_nonempty(value: Seq<char>)
    ensures
        spec_parse_bytes(value) matches Ok(b) ==> b.len() >= 1,
{
    lemma_bytes_of_parts_len(runs(value, 1));
}

proof fn lemma_start_input_frame_nonempty(flags: Map<Seq<char>, Seq<char>>)
    ensures
        spec_command_start_input(flags) matches Ok(b) ==> b.len() >= 1,
{
}

proof fn lemma_stop_input_frame_nonempty(flags: Map<Seq<char>, Seq<char>>)
    ensures
        spec_command_stop_input(flags) matches Ok(b) ==> b.len() >= 1,
{
}

proof fn lemma_stop_input_specially_frame_nonempty(flags: Map<Seq<char>, Seq<char>>)
    ensures
        spec_command_stop_input_specially(flags) matches Ok(b) ==> b.len() >= 1,
{
}

proof fn lemma_mute_unmute_change_output_frame_nonempty(flags: Map<Seq<char>, Seq<char>>)
    ensures
        spec_command_mute_unmute_change_output(flags) matches Ok(b) ==> b.len() >= 1,
{
}

proof fn lemma_save_user_param_frame_nonempty(flags: Map<Seq<char>, Seq<char>>)
    ensures
        spec_command_save_user_param(flags) matches Ok(b) ==> b.len() >= 1,
{
}

proof fn lemma_initialize_user_param_frame_nonempty(flags: Map<Seq<char>, Seq<char>>)
    ensures
        spec_command_initialize_user_param(flags) matches Ok(b) ==> b.len() >= 1,
{
}

proof fn lemma_shutdown_reboot_frame_nonempty(flags: Map<Seq<char>, Seq<char>>)
    ensures
        spec_command_shutdown_reboot(flags) matches Ok(b) ==> b.len() >= 1,
{
}

proof fn lemma_get_video_output_position_frame_nonempty(flags: Map<Seq<char>, Seq<char>>)
    ensures
        spec_command_get_video_output_position(flags) matches Ok(b) ==> b.len() >= 1,
{
}

proof fn lemma_set_video_output_position_frame_nonempty(flags: Map<Seq<char>, Seq<char>>)
    ensures
        spec_command_set_video_output_position(flags) matches Ok(b) ==> b.len() >= 1,
{
}

proof fn lemma_get_optical_alignment_frame_nonempty(flags: Map<Seq<char>, Seq<char>>)
    ensures
        spec_command_get_optical_alignment(flags) matches Ok(b) ==> b.len() >= 1,
{
}

proof fn lemma_set_optical_alignment_frame_nonempty(flags: Map<Seq<char>, Seq<char>>)
    ensures
        spec_command_set_optical_alignment(flags) matches Ok(b) ==> b.len() >= 1,
{
}

proof fn lemma_get_biphase_frame_nonempty(flags: Map<Seq<char>, Seq<char>>)
    ensures
        spec_command_get_biphase(flags) matches Ok(b) ==> b.len() >= 1,
{
}

proof fn lemma_set_biphase_frame_nonempty(flags: Map<Seq<char>, Seq<char>>)
    ensures
        spec_command_set_biphase(flags) matches Ok(b) ==> b.len() >= 1,
{
}

proof fn lemma_set_easy_optical_adjustment_control_frame_nonempty(flags: Map<Seq<char>, Seq<char>>)
    ensures
        spec_command_set_easy_optical_adjustment_control(flags) matches Ok(b) ==> b.len() >= 1,
{
}

proof fn lemma_set_easy_optical_adjustment_plus_frame_nonempty(flags: Map<Seq<char>, Seq<char>>)
    ensures
        spec_command_set_easy_optical_adjustment_plus(flags) matches Ok(b) ==> b.len() >= 1,
{
}

proof fn lemma_set_easy_optical_adjustment_minus_frame_nonempty(flags: Map<Seq<char>, Seq<char>>)
    ensures
        spec_command_set_easy_optical_adjustment_minus(flags) matches Ok(b) ==> b.len() >= 1,
{
}

proof fn lemma_set_easy_optical_adjustment_exit_frame_nonempty(flags: Map<Seq<char>, Seq<char>>)
    ensures
        spec_command_set_easy_optical_adjustment_exit(flags) matches Ok(b) ==> b.len() >= 1,
{
}

proof fn lemma_set_easy_biphase_adjustment_control_frame_nonempty(flags: Map<Seq<char>, Seq<char>>)
    ensures
        spec_command_set_easy_biphase_adjustment_control(flags) matches Ok(b) ==> b.len() >= 1,
{
}

proof fn lemma_set_easy_biphase_adjustment_plus_frame_nonempty(flags: Map<Seq<char>, Seq<char>>)
    ensures
        spec_command_set_easy_biphase_adjustment_plus(flags) matches Ok(b) ==> b.len() >= 1,
{
}

proof fn lemma_set_easy_biphase_adjustment_minus_frame_nonempty(flags: Map<Seq<char>, Seq<char>>)
    ensures
        spec_command_set_easy_biphase_adjustment_minus(flags) matches Ok(b) ==> b.len() >= 1,
{
}

proof fn lemma_set_easy_biphase_adjustment_exit_frame_nonempty(flags: Map<Seq<char>, Seq<char>>)
    ensures
        spec_command_set_easy_biphase_adjustment_exit(flags) matches Ok(b) ==> b.len() >= 1,
{
}

proof fn lemma_get_all_picture_quality_frame_nonempty(flags: Map<Seq<char>, Seq<char>>)
    ensures
        spec_command_get_all_picture_quality(flags) matches Ok(b) ==> b.len() >= 1,
{
}

proof fn lemma_set_all_picture_quality_frame_nonempty(flags: Map<Seq<char>, Seq<char>>)
    ensures
        spec_command_set_all_picture_quality(flags) matches Ok(b) ==> b.len() >= 1,
{
}

proof fn lemma_get_brightness_frame_nonempty(flags: Map<Seq<char>, Seq<char>>)
    ensures
        spec_command_get_brightness(flags) matches Ok(b) ==> b.len() >= 1,
{
}

proof fn lemma_set_brightness_frame_nonempty(flags: Map<Seq<char>, Seq<char>>)
    ensures
        spec_command_set_brightness(flags) matches Ok(b) ==> b.len() >= 1,
{
}

proof fn lemma_get_contrast_frame_nonempty(flags: Map<Seq<char>, Seq<char>>)
    ensures
        spec_command_get_contrast(flags) matches Ok(b) ==> b.len() >= 1,
{
}

proof fn lemma_set_contrast_frame_nonempty(flags: Map<Seq<char>, Seq<char>>)
    ensures
        spec_command_set_contrast(flags) matches Ok(b) ==> b.len() >= 1,
{
}

proof fn lemma_get_hue_frame_nonempty(flags: Map<Seq<char>, Seq<char>>)
    ensures
        spec_command_get_hue(flags) matches Ok(b) ==> b.len() >= 1,
{
}

proof fn lemma_set_hue_frame_nonempty(flags: Map<Seq<char>, Seq<char>>)
    ensures
        spec_command_set_hue(flags) matches Ok(b) ==> b.len() >= 1,
{
}

proof fn lemma_get_saturation_frame_nonempty(flags: Map<Seq<char>, Seq<char>>)
    ensures
        spec_command_get_saturation(flags) matches Ok(b) ==> b.len() >= 1,
{
}

proof fn lemma_set_saturation_frame_nonempty(flags: Map<Seq<char>, Seq<char>>)
    ensures
        spec_command_set_saturation(flags) matches Ok(b) ==> b.len() >= 1,
{
}

proof fn lemma_get_sharpness_frame_nonempty(flags: Map<Seq<char>, Seq<char>>)
    ensures
        spec_command_get_sharpness(flags) matches Ok(b) ==> b.len() >= 1,
{
}

proof fn lemma_set_sharpness_frame_nonempty(flags: Map<Seq<char>, Seq<char>>)
    ensures
        spec_command_set_sharpness(flags) matches Ok(b) ==> b.len() >= 1,
{
}

proof fn lemma_update_fw_image_frame_nonempty(flags: Map<Seq<char>, Seq<char>>)
    ensures
        spec_command_update_fw_image(flags) matches Ok(b) ==> b.len() >= 1,
{
}

proof fn lemma_update_picture_data_frame_nonempty(flags: Map<Seq<char>, Seq<char>>)
    ensures
        spec_command_update_picture_data(flags) matches Ok(b) ==> b.len() >= 1,
{
}

proof fn lemma_division_transmission_update_fw_image_frame_nonempty(flags: Map<Seq<char>, Seq<char>>)
    ensures
        spec_command_division_transmission_update_fw_image(flags) matches Ok(b) ==> b.len() >= 1,
{
}

proof fn lemma_division_transmission_update_picture_data_frame_nonempty(flags: Map<Seq<char>, Seq<char>>)
    ensures
        spec_command_division_transmission_update_picture_data(flags) matches Ok(b) ==> b.len() >= 1,
{
}

proof fn lemma_division_transmission_update_data_frame_nonempty(flags: Map<Seq<char>, Seq<char>>)
    ensures
        spec_command_division_transmission_update_data(flags) matches Ok(b) ==> b.len() >= 1,
{
}

proof fn lemma_get_temperature_frame_nonempty(flags: Map<Seq<char>, Seq<char>>)
    ensures
        spec_command_get_temperature(flags) matches Ok(b) ==> b.len() >= 1,
{
}

proof fn lemma_get_time_frame_nonempty(flags: Map<Seq<char>, Seq<char>>)
    ensures
        spec_command_get_time(flags) matches Ok(b) ==> b.len() >= 1,
{
}

proof fn lemma_get_version_frame_nonempty(flags: Map<Seq<char>, Seq<char>>)
    ensures
        spec_command_get_version(flags) matches Ok(b) ==> b.len() >= 1,
{
}

proof fn lemma_output_test_picture_frame_nonempty(flags: Map<Seq<char>, Seq<char>>)
    ensures
        spec_command_output_test_picture(flags) matches Ok(b) ==> b.len() >= 1,
{
}

proof fn lemma_get_lot_number_frame_nonempty(flags: Map<Seq<char>, Seq<char>>)
    ensures
        spec_command_get_lot_number(flags) matches Ok(b) ==> b.len() >= 1,
{
}

proof fn lemma_get_serial_number_frame_nonempty(flags: Map<Seq<char>, Seq<char>>)
    ensures
        spec_command_get_serial_number(flags) matches Ok(b) ==> b.len() >= 1,
{
}

proof fn lemma_raw_frame_nonempty(flags: Map<Seq<char>, Seq<char>>)
    ensures
        spec_command_raw(flags) matches Ok(b) ==> b.len() >= 1,
{
    if let Ok((raw, rest)) = spec_required(flags, "bytes"@) {
        lemma_parse_bytes_nonempty(raw);
    }
}

/// Every frame that a command builds holds at least its command id.
pub proof fn lemma_command_bytes_nonempty(cmd: Seq<char>, flags: Map<Seq<char>, Seq<char>>)
    ensures
        spec_command_bytes(cmd, flags) matches Ok(b) ==> b.len() >= 1,
{
    if cmd == "startinput"@ {
        lemma_start_input_frame_nonempty(flags);
    } else if cmd == "stopinput"@ {
        lemma_stop_input_frame_nonempty(flags);
    } else if cmd == "stopinputspecially"@ {
        lemma_stop_input_specially_frame_nonempty(flags);
    } else if cmd == "muteunmutechangeoutput"@ {
        lemma_mute_unmute_change_output_frame_nonempty(flags);
    } else if cmd == "saveuserparam"@ {
        lemma_save_user_param_frame_nonempty(flags);
    } else if cmd == "initializeuserparam"@ {
        lemma_initialize_user_param_frame_nonempty(flags);
    } else if cmd == "shutdownreboot"@ || cmd == "shutdown"@ {
        lemma_shutdown_reboot_frame_nonempty(flags);
    } else if cmd == "getvideooutputposition"@ {
        lemma_get_video_output_position_frame_nonempty(flags);
    } else if cmd == "setvideooutputposition"@ {
        lemma_set_video_output_position_frame_nonempty(flags);
    } else if cmd == "getopticalalignment"@ {
        lemma_get_optical_alignment_frame_nonempty(flags);
    } else if cmd == "setopticalalignment"@ {
        lemma_set_optical_alignment_frame_nonempty(flags);
    } else if cmd == "getbiphase"@ {
        lemma_get_biphase_frame_nonempty(flags);
    } else if cmd == "setbiphase"@ {
        lemma_set_biphase_frame_nonempty(flags);
    } else if cmd == "seteasyopticaladjustmentcontrol"@ {
        lemma_set_easy_optical_adjustment_control_frame_nonempty(flags);
    } else if cmd == "seteasyopticaladjustmentplus"@ {
        lemma_set_easy_optical_adjustment_plus_frame_nonempty(flags);
    } else if cmd == "seteasyopticaladjustmentminus"@ {
        lemma_set_easy_optical_adjustment_minus_frame_nonempty(flags);
    } else if cmd == "seteasyopticaladjustmentexit"@ {
        lemma_set_easy_optical_adjustment_exit_frame_nonempty(flags);
    } else if cmd == "seteasybiphaseadjustmentcontrol"@ {
        lemma_set_easy_biphase_adjustment_control_frame_nonempty(flags);
    } else if cmd == "seteasybiphaseadjustmentplus"@ {
        lemma_set_easy_biphase_adjustment_plus_frame_nonempty(flags);
    } else if cmd == "seteasybiphaseadjustmentminus"@ {
        lemma_set_easy_biphase_adjustment_minus_frame_nonempty(flags);
    } else if cmd == "seteasybiphaseadjustmentexit"@ {
        lemma_set_easy_biphase_adjustment_exit_frame_nonempty(flags);
    } else if cmd == "getallpicturequality"@ {
        lemma_get_all_picture_quality_frame_nonempty(flags);
    } else if cmd == "setallpicturequality"@ {
        lemma_set_all_picture_quality_frame_nonempty(flags);
    } else if cmd == "getbrightness"@ {
        lemma_get_brightness_frame_nonempty(flags);
    } else if cmd == "setbrightness"@ {
        lemma_set_brightness_frame_nonempty(flags);
    } else if cmd == "getcontrast"@ {
        lemma_get_contrast_frame_nonempty(flags);
    } else if cmd == "setcontrast"@ {
        lemma_set_contrast_frame_nonempty(flags);
    } else if cmd == "gethue"@ {
        lemma_get_hue_frame_nonempty(flags);
    } else if cmd == "sethue"@ {
        lemma_set_hue_frame_nonempty(flags);
    } else if cmd == "getsaturation"@ {
        lemma_get_saturation_frame_nonempty(flags);
    } else if cmd == "setsaturation"@ {
        lemma_set_saturation_frame_nonempty(flags);
    } else if cmd == "getsharpness"@ {
        lemma_get_sharpness_frame_nonempty(flags);
    } else if cmd == "setsharpness"@ {
        lemma_set_sharpness_frame_nonempty(flags);
    } else if cmd == "updatefwimage"@ {
        lemma_update_fw_image_frame_nonempty(flags);
    } else if cmd == "updatepicturedata"@ {
        lemma_update_picture_data_frame_nonempty(flags);
    } else if cmd == "divisiontransmissionupdatefwimage"@ {
        lemma_division_transmission_update_fw_image_frame_nonempty(flags);
    } else if cmd == "divisiontransmissionupdatepicturedata"@ {
        lemma_division_transmission_update_picture_data_frame_nonempty(flags);
    } else if cmd == "divisiontransmissionupdatedata"@ {
        lemma_division_transmission_update_data_frame_nonempty(flags);
    } else if cmd == "gettemperature"@ {
        lemma_get_temperature_frame_nonempty(flags);
    } else if cmd == "gettime"@ {
        lemma_get_time_frame_nonempty(flags);
    } else if cmd == "getversion"@ {
        lemma_get_version_frame_nonempty(flags);
    } else if cmd == "outputtestpicture"@ {
        lemma_output_test_picture_frame_nonempty(flags);
    } else if cmd == "getlotnumber"@ {
        lemma_get_lot_number_frame_nonempty(flags);
    } else if cmd == "getserialnumber"@ {
        lemma_get_serial_number_frame_nonempty(flags);
    } else if cmd == "raw"@ {
        lemma_raw_frame_nonempty(flags);
    }
}

/// A command line that names a command gives a frame of at least one byte, so the frame
/// has a first byte to match its answer by.
pub proof fn lemma_request_line_frame_nonempty(line: Seq<char>)
    ensures
        spec_parse_request_line(line) matches Ok(Some(b)) ==> b.len() >= 1,
{
    let words = runs(line, 0);
    if words.len() > 0 {
        if let Ok(flags) = flags_from(words.drop_first(), Map::empty()) {
            lemma_command_bytes_nonempty(normalized(words[0]), flags);
        }
    }
}

/// Two tokens that a command line treats alike: equal, or both flags with the same name
/// once case, `-` and `_` are set aside.
pub open spec fn same_token(a: Seq<char>, b: Seq<char>) -> bool {
    a == b || (starts_with(a, "--"@) && starts_with(b, "--"@) && flag_key(a) == flag_key(b))
}

proof fn lemma_flags_from_same_tokens(
    t1: Seq<Seq<char>>,
    t2: Seq<Seq<char>>,
    acc: Map<Seq<char>, Seq<char>>,
)
    requires
        t1.len() == t2.len(),
        forall|i: int| 0 <= i < t1.len() ==> same_token(#[trigger] t1[i], t2[i]),
    ensures
        flags_from(t1, acc) == flags_from(t2, acc),
    decreases t1.len(),
{
    if t1.len() > 0 {
        assert(same_token(t1[0], t2[0]));
        if t1.len() >= 2 {
            assert(same_token(t1[1], t2[1]));
            if starts_with(t1[0], "--"@) && !starts_with(t1[1], "--"@) {
                assert(t1[1] == t2[1]);
                let s1 = t1.skip(2);
                let s2 = t2.skip(2);
                assert forall|i: int| 0 <= i < s1.len() implies same_token(#[trigger] s1[i], s2[i]) by {
                    assert(same_token(t1[i + 2], t2[i + 2]));
                }
                lemma_flags_from_same_tokens(s1, s2, acc.insert(flag_key(t1[0]), t1[1]));
            }
        }
    }
}

/// Command and flag names are matched with case, `-` and `_` set aside: two lines whose
/// words differ only there give the same result.
pub proof fn lemma_names_ignore_case_and_dashes(l1: Seq<char>, l2: Seq<char>)
    requires
        runs(l1, 0).len() == runs(l2, 0).len(),
        runs(l1, 0).len() > 0 ==> normalized(runs(l1, 0)[0]) == normalized(runs(l2, 0)[0]),
        forall|i: int|
            1 <= i < runs(l1, 0).len() ==> same_token(#[trigger] runs(l1, 0)[i], runs(l2, 0)[i]),
    ensures
        spec_parse_request_line(l1) == spec_parse_request_line(l2),
{
    let w1 = runs(l1, 0);
    let w2 = runs(l2, 0);
    if w1.len() > 0 {
        let r1 = w1.drop_first();
        let r2 = w2.drop_first();
        assert forall|i: int| 0 <= i < r1.len() implies same_token(#[trigger] r1[i], r2[i]) by {
            assert(same_token(w1[i + 1], w2[i + 1]));
        }
        lemma_flags_from_same_tokens(r1, r2, Map::empty());
    }
}

// ---------------------------------------------------------------------------
// Which flag lands in which operand
// ---------------------------------------------------------------------------

/// `set-hue` sends the value given with `--hue-u` as its first operand and the value given with `--hue-v` as its second.
pub proof fn lemma_set_hue_line(
    flags: Map<Seq<char>, Seq<char>>,
    u: i8,
    f1: Map<Seq<char>, Seq<char>>,
    v: i8,
    f2: Map<Seq<char>, Seq<char>>,
)
    requires
        spec_take_i8(flags, "hue-u"@) == Ok::<(i8, Map<Seq<char>, Seq<char>>), Seq<char>>((u, f1)),
        spec_take_i8(f1, "hue-v"@) == Ok::<(i8, Map<Seq<char>, Seq<char>>), Seq<char>>((v, f2)),
        f2.dom().len() == 0,
    ensures
        spec_command_set_hue(flags) matches Ok(b)
            && b.len() == 4
            && b[0] == 0x47
            && b[1] == 2
            && b[2] as int == signed_byte_value(u)
            && b[3] as int == signed_byte_value(v),
{
    lemma_set_hue_frame(u, v);
}

/// `set-saturation` sends `--saturation-u` as its first operand and `--saturation-v` as its second.
pub proof fn lemma_set_saturation_line(
    flags: Map<Seq<char>, Seq<char>>,
    u: i8,
    f1: Map<Seq<char>, Seq<char>>,
    v: i8,
    f2: Map<Seq<char>, Seq<char>>,
)
    requires
        spec_take_i8(flags, "saturation-u"@) == Ok::<(i8, Map<Seq<char>, Seq<char>>), Seq<char>>((u, f1)),
        spec_take_i8(f1, "saturation-v"@) == Ok::<(i8, Map<Seq<char>, Seq<char>>), Seq<char>>((v, f2)),
        f2.dom().len() == 0,
    ensures
        spec_command_set_saturation(flags) matches Ok(b)
            && b.len() == 4
            && b[0] == 0x49
            && b[1] == 2
            && b[2] as int == signed_byte_value(u)
            && b[3] as int == signed_byte_value(v),
{
    lemma_set_saturation_frame(u, v);
}

/// `set-brightness` sends the value given with `--brightness`.
pub proof fn lemma_set_brightness_line(
    flags: Map<Seq<char>, Seq<char>>,
    v: i8,
    f1: Map<Seq<char>, Seq<char>>,
)
    requires
        spec_take_i8(flags, "brightness"@) == Ok::<(i8, Map<Seq<char>, Seq<char>>), Seq<char>>((v, f1)),
        f1.dom().len() == 0,
    ensures
        spec_command_set_brightness(flags) matches Ok(b)
            && b.len() == 3
            && b[0] == 0x43
            && b[1] == 1
            && b[2] as int == signed_byte_value(v),
{
    lemma_set_brightness_frame(v);
}

/// `set-contrast` sends the value given with `--contrast`.
pub proof fn lemma_set_contrast_line(
    flags: Map<Seq<char>, Seq<char>>,
    v: i8,
    f1: Map<Seq<char>, Seq<char>>,
)
    requires
        spec_take_i8(flags, "contrast"@) == Ok::<(i8, Map<Seq<char>, Seq<char>>), Seq<char>>((v, f1)),
        f1.dom().len() == 0,
    ensures
        spec_command_set_contrast(flags) matches Ok(b)
            && b.len() == 3
            && b[0] == 0x45
            && b[1] == 1
            && b[2] as int == signed_byte_value(v),
{
    lemma_set_contrast_frame(v);
}

/// `set-sharpness` sends the value given with `--sharpness`.
pub proof fn lemma_set_sharpness_line(
    flags: Map<Seq<char>, Seq<char>>,
    v: u8,
    f1: Map<Seq<char>, Seq<char>>,
)
    requires
        spec_take_u8(flags, "sharpness"@) == Ok::<(u8, Map<Seq<char>, Seq<char>>), Seq<char>>((v, f1)),
        f1.dom().len() == 0,
    ensures
        spec_command_set_sharpness(flags) matches Ok(b)
            && b.len() == 3
            && b[0] == 0x4F
            && b[1] == 1
            && b[2] as int == v,
{
    lemma_set_sharpness_frame(v);
}

/// `set-all-picture-quality` sends each flag in its own operand: contrast, brightness, hue U, hue V, saturation U, saturation V, a zero byte, sharpness, a zero byte.
pub proof fn lemma_set_all_picture_quality_line(
    flags: Map<Seq<char>, Seq<char>>,
    c: i8,
    f1: Map<Seq<char>, Seq<char>>,
    br: i8,
    f2: Map<Seq<char>, Seq<char>>,
    hu: i8,
    f3: Map<Seq<char>, Seq<char>>,
    hv: i8,
    f4: Map<Seq<char>, Seq<char>>,
    su: i8,
    f5: Map<Seq<char>, Seq<char>>,
    sv: i8,
    f6: Map<Seq<char>, Seq<char>>,
    sh: u8,
    f7: Map<Seq<char>, Seq<char>>,
)
    requires
        spec_take_i8(flags, "contrast"@) == Ok::<(i8, Map<Seq<char>, Seq<char>>), Seq<char>>((c, f1)),
        spec_take_i8(f1, "brightness"@) == Ok::<(i8, Map<Seq<char>, Seq<char>>), Seq<char>>((br, f2)),
        spec_take_i8(f2, "hue-u"@) == Ok::<(i8, Map<Seq<char>, Seq<char>>), Seq<char>>((hu, f3)),
        spec_take_i8(f3, "hue-v"@) == Ok::<(i8, Map<Seq<char>, Seq<char>>), Seq<char>>((hv, f4)),
        spec_take_i8(f4, "saturation-u"@) == Ok::<(i8, Map<Seq<char>, Seq<char>>), Seq<char>>((su, f5)),
        spec_take_i8(f5, "saturation-v"@) == Ok::<(i8, Map<Seq<char>, Seq<char>>), Seq<char>>((sv, f6)),
        spec_take_u8(f6, "sharpness"@) == Ok::<(u8, Map<Seq<char>, Seq<char>>), Seq<char>>((sh, f7)),
        f7.dom().len() == 0,
    ensures
        spec_command_set_all_picture_quality(flags) matches Ok(b)
            && b.len() == 11
            && b[0] == 0x41
            && b[1] == 9
            && b[2] as int == signed_byte_value(c)
            && b[3] as int == signed_byte_value(br)
            && b[4] as int == signed_byte_value(hu)
            && b[5] as int == signed_byte_value(hv)
            && b[6] as int == signed_byte_value(su)
            && b[7] as int == signed_byte_value(sv)
            && b[8] as int == 0
            && b[9] as int == sh
            && b[10] as int == 0,
{
    lemma_set_all_picture_quality_frame(c, br, hu, hv, su, sv, sh);
}

/// `set-video-output-position` sends `--pan`, `--tilt` and the byte of `--flip`, then 0x64 and five zero bytes.
pub proof fn lemma_set_video_output_position_line(
    flags: Map<Seq<char>, Seq<char>>,
    p: i8,
    f1: Map<Seq<char>, Seq<char>>,
    t: i8,
    f2: Map<Seq<char>, Seq<char>>,
    fl: Flip,
    f3: Map<Seq<char>, Seq<char>>,
)
    requires
        spec_take_i8(flags, "pan"@) == Ok::<(i8, Map<Seq<char>, Seq<char>>), Seq<char>>((p, f1)),
        spec_take_i8(f1, "tilt"@) == Ok::<(i8, Map<Seq<char>, Seq<char>>), Seq<char>>((t, f2)),
        spec_take_flip(f2, "flip"@) == Ok::<(Flip, Map<Seq<char>, Seq<char>>), Seq<char>>((fl, f3)),
        f3.dom().len() == 0,
    ensures
        spec_command_set_video_output_position(flags) matches Ok(b)
            && b.len() == 11
            && b[0] == 0x26
            && b[1] == 9
            && b[2] as int == signed_byte_value(p)
            && b[3] as int == signed_byte_value(t)
            && b[4] as int == fl.spec_byte()
            && b[5] as int == 0x64
            && b[6] as int == 0
            && b[7] as int == 0
            && b[8] as int == 0
            && b[9] as int == 0
            && b[10] as int == 0,
{
    lemma_set_video_output_position_frame(p, t, fl);
}

/// `output-test-picture` sends the pattern byte, `--setting`, the background colour and the foreground colour, then nine zero bytes.
pub proof fn lemma_output_test_picture_line(
    flags: Map<Seq<char>, Seq<char>>,
    pt: TestPattern,
    f1: Map<Seq<char>, Seq<char>>,
    st: u8,
    f2: Map<Seq<char>, Seq<char>>,
    bgc: Rgb,
    f3: Map<Seq<char>, Seq<char>>,
    fgc: Rgb,
    f4: Map<Seq<char>, Seq<char>>,
)
    requires
        spec_take_test_pattern(flags, "pattern"@) == Ok::<(TestPattern, Map<Seq<char>, Seq<char>>), Seq<char>>((pt, f1)),
        spec_take_u8(f1, "setting"@) == Ok::<(u8, Map<Seq<char>, Seq<char>>), Seq<char>>((st, f2)),
        spec_take_rgb(f2, "background-color"@) == Ok::<(Rgb, Map<Seq<char>, Seq<char>>), Seq<char>>((bgc, f3)),
        spec_take_rgb(f3, "foreground-color"@) == Ok::<(Rgb, Map<Seq<char>, Seq<char>>), Seq<char>>((fgc, f4)),
        f4.dom().len() == 0,
    ensures
        spec_command_output_test_picture(flags) matches Ok(b)
            && b.len() == 19
            && b[0] == 0xA3
            && b[1] == 17
            && b[2] as int == pt.spec_byte()
            && b[3] as int == st
            && b[4] as int == bgc.r
            && b[5] as int == bgc.g
            && b[6] as int == bgc.b
            && b[7] as int == fgc.r
            && b[8] as int == fgc.g
            && b[9] as int == fgc.b
            && b[10] as int == 0
            && b[11] as int == 0
            && b[12] as int == 0
            && b[13] as int == 0
            && b[14] as int == 0
            && b[15] as int == 0
            && b[16] as int == 0
            && b[17] as int == 0
            && b[18] as int == 0,
{
    lemma_output_test_picture_frame(pt, st, bgc.r, bgc.g, bgc.b, fgc.r, fgc.g, fgc.b);
}

/// `save-user-param` sends two zero bytes, then the bytes of `--video-position`, `--optical-alignment-biphase` and `--picture-quality`.
pub proof fn lemma_save_user_param_line(
    flags: Map<Seq<char>, Seq<char>>,
    vp: SaveVideoPosition,
    f1: Map<Seq<char>, Seq<char>>,
    oa: SaveOpticalAlignmentBiphase,
    f2: Map<Seq<char>, Seq<char>>,
    pq: SavePictureQuality,
    f3: Map<Seq<char>, Seq<char>>,
)
    requires
        spec_take_save_video_position(flags, "video-position"@) == Ok::<(SaveVideoPosition, Map<Seq<char>, Seq<char>>), Seq<char>>((vp, f1)),
        spec_take_save_optical_alignment_biphase(f1, "optical-alignment-biphase"@) == Ok::<(SaveOpticalAlignmentBiphase, Map<Seq<char>, Seq<char>>), Seq<char>>((oa, f2)),
        spec_take_save_picture_quality(f2, "picture-quality"@) == Ok::<(SavePictureQuality, Map<Seq<char>, Seq<char>>), Seq<char>>((pq, f3)),
        f3.dom().len() == 0,
    ensures
        spec_command_save_user_param(flags) matches Ok(b)
            && b.len() == 7
            && b[0] == 0x07
            && b[1] == 5
            && b[2] as int == 0
            && b[3] as int == 0
            && b[4] as int == vp.spec_byte()
            && b[5] as int == oa.spec_byte()
            && b[6] as int == pq.spec_byte(),
{
    lemma_save_user_param_frame(vp, oa, pq);
}

} // verus!
