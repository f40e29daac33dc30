use vstd::prelude::*;

use crate::text::{
    chars_skip, chars_start_with, dec_int, dec_nat, digit_value, push_dec_i128, push_dec_u64,
    push_str, starts_with, to_digit,
};

verus! {

/// Why integer text could not be read, as `core::num::IntErrorKind` tells it.
#[derive(Debug, Clone, Copy, PartialEq, Eq)]
pub enum IntErrorKind {
    Empty,
    InvalidDigit,
    PosOverflow,
    NegOverflow,
}

/// The message that `ParseIntError` displays for each kind.
pub open spec fn int_error_text(kind: IntErrorKind) -> Seq<char> {
    match kind {
        IntErrorKind::Empty => "cannot parse integer from empty string"@,
        IntErrorKind::InvalidDigit => "invalid digit found in string"@,
        IntErrorKind::PosOverflow => "number too large to fit in target type"@,
        IntErrorKind::NegOverflow => "number too small to fit in target type"@,
    }
}

fn int_error_message(kind: IntErrorKind) -> (text: Vec<char>)
    ensures
        text@ == int_error_text(kind),
{
    let mut text = Vec::new();
    match kind {
        IntErrorKind::Empty => push_str(&mut text, "cannot parse integer from empty string"),
        IntErrorKind::InvalidDigit => push_str(&mut text, "invalid digit found in string"),
        IntErrorKind::PosOverflow => push_str(&mut text, "number too large to fit in target type"),
        IntErrorKind::NegOverflow => push_str(&mut text, "number too small to fit in target type"),
    }
    text
}

/// `acc` times the radix (10 or 16).
pub open spec fn shifted(acc: int, radix: u32) -> int {
    if radix == 16 {
        acc * 16
    } else {
        acc * 10
    }
}

/// Reads digits left to right into `acc`, stopping at the first char that is not a digit
/// or the first digit that takes the value out of `[min, max]`.
pub open spec fn scan_digits(
    digits: Seq<char>,
    radix: u32,
    acc: int,
    positive: bool,
    min: int,
    max: int,
) -> Result<int, IntErrorKind>
    decreases digits.len(),
{
    if digits.len() == 0 {
        Ok(acc)
    } else {
        match digit_value(digits[0], radix) {
            None => Err(IntErrorKind::InvalidDigit),
            Some(d) => {
                let next = if positive {
                    shifted(acc, radix) + d
                } else {
                    shifted(acc, radix) - d
                };
                if positive && next > max {
                    Err(IntErrorKind::PosOverflow)
                } else if !positive && next < min {
                    Err(IntErrorKind::NegOverflow)
                } else {
                    scan_digits(digits.drop_first(), radix, next, positive, min, max)
                }
            },
        }
    }
}

/// What `from_str_radix` of an integer type with range `[min, max]` gives: an optional
/// sign (`-` only for signed types), then at least one digit.
pub open spec fn from_str_radix(
    s: Seq<char>,
    radix: u32,
    signed: bool,
    min: int,
    max: int,
) -> Result<int, IntErrorKind> {
    if s.len() == 0 {
        Err(IntErrorKind::Empty)
    } else if s.len() == 1 && (s[0] == '+' || s[0] == '-') {
        Err(IntErrorKind::InvalidDigit)
    } else if s[0] == '+' {
        scan_digits(s.drop_first(), radix, 0, true, min, max)
    } else if s[0] == '-' && signed {
        scan_digits(s.drop_first(), radix, 0, false, min, max)
    } else {
        scan_digits(s, radix, 0, true, min, max)
    }
}

fn scan(s: &[char], start: usize, radix: u32, positive: bool, min: i128, max: i128) -> (r: Result<
    i128,
    IntErrorKind,
>)
    requires
        start <= s@.len(),
        radix == 10 || radix == 16,
        -0x1_0000_0000_0000_0000 <= min <= 0 <= max <= 0x1_0000_0000_0000_0000,
    ensures
        match r {
            Ok(v) => scan_digits(s@.skip(start as int), radix, 0, positive, min as int, max as int)
                == Ok::<int, IntErrorKind>(v as int),
            Err(k) => scan_digits(s@.skip(start as int), radix, 0, positive, min as int, max as int)
                == Err::<int, IntErrorKind>(k),
        },
        r matches Ok(v) ==> min <= v <= max,
{
    let mut acc: i128 = 0;
    let mut i = start;
    while i < s.len()
        invariant
            start <= i <= s@.len(),
            radix == 10 || radix == 16,
            -0x1_0000_0000_0000_0000 <= min <= 0 <= max <= 0x1_0000_0000_0000_0000,
            min <= acc <= max,
            positive ==> acc >= 0,
            !positive ==> acc <= 0,
            scan_digits(s@.skip(start as int), radix, 0, positive, min as int, max as int)
                == scan_digits(s@.skip(i as int), radix, acc as int, positive, min as int, max as int),
        decreases s@.len() - i,
    {
        assert(s@.skip(i as int)[0] == s@[i as int]);
        assert(s@.skip(i as int).drop_first() =~= s@.skip(i + 1));
        let d = match to_digit(s[i], radix) {
            Some(d) => d,
            None => return Err(IntErrorKind::InvalidDigit),
        };
        let shifted_acc: i128 = if radix == 16 {
            acc * 16
        } else {
            acc * 10
        };
        let next: i128 = if positive {
            shifted_acc + d as i128
        } else {
            shifted_acc - d as i128
        };
        if positive && next > max {
            return Err(IntErrorKind::PosOverflow);
        }
        if !positive && next < min {
            return Err(IntErrorKind::NegOverflow);
        }
        acc = next;
        i = i + 1;
    }
    assert(s@.skip(i as int).len() == 0);
    Ok(acc)
}

/// Reads integer text the way `from_str_radix` does for a type with range `[min, max]`.
pub(crate) fn parse_int(s: &[char], radix: u32, signed: bool, min: i128, max: i128) -> (r: Result<
    i128,
    IntErrorKind,
>)
    requires
        radix == 10 || radix == 16,
        -0x1_0000_0000_0000_0000 <= min <= 0 <= max <= 0x1_0000_0000_0000_0000,
    ensures
        match r {
            Ok(v) => from_str_radix(s@, radix, signed, min as int, max as int) == Ok::<
                int,
                IntErrorKind,
            >(v as int),
            Err(k) => from_str_radix(s@, radix, signed, min as int, max as int) == Err::<
                int,
                IntErrorKind,
            >(k),
        },
        r matches Ok(v) ==> min <= v <= max,
{
    if s.len() == 0 {
        return Err(IntErrorKind::Empty);
    }
    if s.len() == 1 && (s[0] == '+' || s[0] == '-') {
        return Err(IntErrorKind::InvalidDigit);
    }
    assert(s@.skip(1) =~= s@.drop_first());
    assert(s@.skip(0) =~= s@);
    if s[0] == '+' {
        scan(s, 1, radix, true, min, max)
    } else if s[0] == '-' && signed {
        scan(s, 1, radix, false, min, max)
    } else {
        scan(s, 0, radix, true, min, max)
    }
}

pub open spec fn i64_min() -> int {
    -0x8000_0000_0000_0000
}

pub open spec fn i64_max() -> int {
    0x7FFF_FFFF_FFFF_FFFF
}

pub open spec fn u64_max() -> int {
    0xFFFF_FFFF_FFFF_FFFF
}

/// Negation of a 64-bit signed value that wraps at the one value without a negative.
pub open spec fn wrapping_neg_i64(v: int) -> int {
    if v == i64_min() {
        v
    } else {
        -v
    }
}

/// Signed text: `-0x`/`-0X` then a negated hexadecimal value, `0x`/`0X` then a
/// hexadecimal value, or a decimal value; all read as `i64`.
pub open spec fn signed_value(value: Seq<char>) -> Result<int, IntErrorKind> {
    if starts_with(value, "-0x"@) || starts_with(value, "-0X"@) {
        match from_str_radix(value.skip(3), 16, true, i64_min(), i64_max()) {
            Ok(v) => Ok(wrapping_neg_i64(v)),
            Err(k) => Err(k),
        }
    } else if starts_with(value, "0x"@) || starts_with(value, "0X"@) {
        from_str_radix(value.skip(2), 16, true, i64_min(), i64_max())
    } else {
        from_str_radix(value, 10, true, i64_min(), i64_max())
    }
}

/// Message for a value outside `[min, max]`.
pub open spec fn outside_text(parsed: int, min: int, max: int) -> Seq<char> {
    dec_int(parsed) + " is outside "@ + dec_int(min) + "..="@ + dec_int(max)
}

/// Signed text read as `i64`, then checked against `[min, max]`.
pub open spec fn spec_parse_signed(value: Seq<char>, min: int, max: int) -> Result<int, Seq<char>> {
    match signed_value(value) {
        Err(k) => Err(int_error_text(k)),
        Ok(v) => if v < min || v > max {
            Err(outside_text(v, min, max))
        } else {
            Ok(v)
        },
    }
}

/// Unsigned text: `0x`/`0X` then a hexadecimal value, or a decimal value; read as `u64`.
pub open spec fn unsigned_value(value: Seq<char>) -> Result<int, IntErrorKind> {
    if starts_with(value, "0x"@) || starts_with(value, "0X"@) {
        from_str_radix(value.skip(2), 16, false, 0, u64_max())
    } else {
        from_str_radix(value, 10, false, 0, u64_max())
    }
}

/// Message for an unsigned value above `max`.
pub open spec fn above_text(parsed: int, max: int) -> Seq<char> {
    dec_int(parsed) + " is outside 0..="@ + dec_int(max)
}

/// Unsigned text read as `u64`, then checked against `max`.
pub open spec fn spec_parse_unsigned(value: Seq<char>, max: int) -> Result<int, Seq<char>> {
    match unsigned_value(value) {
        Err(k) => Err(int_error_text(k)),
        Ok(v) => if v > max {
            Err(above_text(v, max))
        } else {
            Ok(v)
        },
    }
}

/// Same outcome as `expected`, with the exec error text taken by its view.
pub open spec fn same_outcome<T>(r: Result<T, Vec<char>>, expected: Result<int, Seq<char>>, value_of: spec_fn(T) -> int) -> bool {
    match r {
        Ok(v) => expected == Ok::<int, Seq<char>>(value_of(v)),
        Err(e) => expected == Err::<int, Seq<char>>(e@),
    }
}

pub fn parse_signed(value: &[char], min: i64, max: i64) -> (r: Result<i64, Vec<char>>)
    ensures
        same_outcome(r, spec_parse_signed(value@, min as int, max as int), |v: i64| v as int),
{
    proof {
        reveal_strlit("-0x");
        reveal_strlit("-0X");
        reveal_strlit("0x");
        reveal_strlit("0X");
    }
    let neg3 = chars_start_with(value, "-0x") || chars_start_with(value, "-0X");
    let hex2 = chars_start_with(value, "0x") || chars_start_with(value, "0X");
    let read = if neg3 {
        let hex = chars_skip(value, 3);
        match parse_int(hex.as_slice(), 16, true, -0x8000_0000_0000_0000, 0x7FFF_FFFF_FFFF_FFFF) {
            Ok(v) => if v == -0x8000_0000_0000_0000 {
                Ok(v)
            } else {
                Ok(-v)
            },
            Err(k) => Err(k),
        }
    } else if hex2 {
        let hex = chars_skip(value, 2);
        parse_int(hex.as_slice(), 16, true, -0x8000_0000_0000_0000, 0x7FFF_FFFF_FFFF_FFFF)
    } else {
        parse_int(value, 10, true, -0x8000_0000_0000_0000, 0x7FFF_FFFF_FFFF_FFFF)
    };
    let parsed = match read {
        Ok(v) => v,
        Err(k) => return Err(int_error_message(k)),
    };
    if parsed < min as i128 || parsed > max as i128 {
        let mut text = Vec::new();
        push_dec_i128(&mut text, parsed);
        push_str(&mut text, " is outside ");
        push_dec_i128(&mut text, min as i128);
        push_str(&mut text, "..=");
        push_dec_i128(&mut text, max as i128);
        return Err(text);
    }
    Ok(parsed as i64)
}

pub fn parse_unsigned(value: &[char], max: u64) -> (r: Result<u64, Vec<char>>)
    ensures
        same_outcome(r, spec_parse_unsigned(value@, max as int), |v: u64| v as int),
{
    proof {
        reveal_strlit("0x");
        reveal_strlit("0X");
    }
    let hex2 = chars_start_with(value, "0x") || chars_start_with(value, "0X");
    let read = if hex2 {
        let hex = chars_skip(value, 2);
        parse_int(hex.as_slice(), 16, false, 0, 0xFFFF_FFFF_FFFF_FFFF)
    } else {
        parse_int(value, 10, false, 0, 0xFFFF_FFFF_FFFF_FFFF)
    };
    let parsed = match read {
        Ok(v) => v,
        Err(k) => return Err(int_error_message(k)),
    };
    if parsed > max as i128 {
        let mut text = Vec::new();
        push_dec_i128(&mut text, parsed);
        push_str(&mut text, " is outside 0..=");
        push_dec_i128(&mut text, max as i128);
        return Err(text);
    }
    Ok(parsed as u64)
}

pub fn parse_i8(value: &[char]) -> (r: Result<i8, Vec<char>>)
    ensures
        same_outcome(r, spec_parse_signed(value@, -128, 127), |v: i8| v as int),
{
    match parse_signed(value, -128, 127) {
        Ok(v) => Ok(v as i8),
        Err(e) => Err(e),
    }
}

pub fn parse_u8(value: &[char]) -> (r: Result<u8, Vec<char>>)
    ensures
        same_outcome(r, spec_parse_unsigned(value@, 0xFF), |v: u8| v as int),
{
    match parse_unsigned(value, 0xFF) {
        Ok(v) => Ok(v as u8),
        Err(e) => Err(e),
    }
}

pub fn parse_u16(value: &[char]) -> (r: Result<u16, Vec<char>>)
    ensures
        same_outcome(r, spec_parse_unsigned(value@, 0xFFFF), |v: u16| v as int),
{
    match parse_unsigned(value, 0xFFFF) {
        Ok(v) => Ok(v as u16),
        Err(e) => Err(e),
    }
}

pub fn parse_u32(value: &[char]) -> (r: Result<u32, Vec<char>>)
    ensures
        same_outcome(r, spec_parse_unsigned(value@, 0xFFFF_FFFF), |v: u32| v as int),
{
    match parse_unsigned(value, 0xFFFF_FFFF) {
        Ok(v) => Ok(v as u32),
        Err(e) => Err(e),
    }
}

} // verus!
