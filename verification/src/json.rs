use vstd::prelude::*;

use crate::args::join;
use crate::text::{
    chars_of, hex_digit_char, is_control, is_control_char, push_chars, push_hex2, push_str, views,
};

verus! {

/// Four lowercase hexadecimal digits of `v` (which is below `0x10000`).
pub open spec fn hex4(v: u32) -> Seq<char> {
    seq![
        hex_digit_char((v / 4096 % 16) as nat),
        hex_digit_char((v / 256 % 16) as nat),
        hex_digit_char((v / 16 % 16) as nat),
        hex_digit_char((v % 16) as nat),
    ]
}

/// How one char is written inside a JSON string.
pub open spec fn escape_char(c: char) -> Seq<char> {
    if c == '"' {
        seq!['\\', '"']
    } else if c == '\\' {
        seq!['\\', '\\']
    } else if c == '\n' {
        seq!['\\', 'n']
    } else if c == '\r' {
        seq!['\\', 'r']
    } else if c == '\t' {
        seq!['\\', 't']
    } else if is_control_char(c) {
        seq!['\\', 'u'] + hex4(c as u32)
    } else {
        seq![c]
    }
}

/// `s` with each char written as inside a JSON string.
pub open spec fn json_escaped(s: Seq<char>) -> Seq<char>
    decreases s.len(),
{
    if s.len() == 0 {
        Seq::empty()
    } else {
        json_escaped(s.drop_last()) + escape_char(s.last())
    }
}

/// A JSON string literal holding `s`.
pub open spec fn string_json_text(s: Seq<char>) -> Seq<char> {
    seq!['"'] + json_escaped(s) + seq!['"']
}

/// A JSON object member: quoted name, colon, value text.
pub open spec fn field_json_text(name: Seq<char>, value: Seq<char>) -> Seq<char> {
    seq!['"'] + json_escaped(name) + seq!['"', ':'] + value
}

fn push_hex_digit(out: &mut Vec<char>, d: u32)
    requires
        d < 16,
    ensures
        final(out)@ == old(out)@.push(hex_digit_char(d as nat)),
{
    if d < 10 {
        out.push(((('0' as u8) + (d as u8)) as char));
    } else {
        out.push(((('a' as u8) + (d as u8) - 10) as char));
    }
}

/// Appends `c` as written inside a JSON string.
pub fn push_escaped_char(out: &mut Vec<char>, c: char)
    ensures
        final(out)@ == old(out)@ + escape_char(c),
{
    if c == '"' {
        out.push('\\');
        out.push('"');
    } else if c == '\\' {
        out.push('\\');
        out.push('\\');
    } else if c == '\n' {
        out.push('\\');
        out.push('n');
    } else if c == '\r' {
        out.push('\\');
        out.push('r');
    } else if c == '\t' {
        out.push('\\');
        out.push('t');
    } else if is_control(c) {
        let v = c as u32;
        out.push('\\');
        out.push('u');
        push_hex_digit(out, v / 4096 % 16);
        push_hex_digit(out, v / 256 % 16);
        push_hex_digit(out, v / 16 % 16);
        push_hex_digit(out, v % 16);
    } else {
        out.push(c);
    }
    assert(final(out)@ =~= old(out)@ + escape_char(c));
}

/// Appends `s` as written inside a JSON string.
pub fn push_escaped(out: &mut Vec<char>, s: &[char])
    ensures
        final(out)@ == old(out)@ + json_escaped(s@),
{
    let mut i: usize = 0;
    while i < s.len()
        invariant
            i <= s@.len(),
            out@ == old(out)@ + json_escaped(s@.take(i as int)),
        decreases s@.len() - i,
    {
        assert(s@.take(i + 1).drop_last() =~= s@.take(i as int));
        push_escaped_char(out, s[i]);
        i = i + 1;
        assert(out@ =~= old(out)@ + json_escaped(s@.take(i as int)));
    }
    assert(s@.take(i as int) =~= s@);
}

/// `value` written as inside a JSON string.
pub fn json_escape(value: &[char]) -> (escaped: Vec<char>)
    ensures
        escaped@ == json_escaped(value@),
{
    let mut escaped = Vec::new();
    push_escaped(&mut escaped, value);
    escaped
}

/// A JSON string literal holding `value`.
pub fn string_json(value: &[char]) -> (text: Vec<char>)
    ensures
        text@ == string_json_text(value@),
{
    let mut text = Vec::new();
    text.push('"');
    push_escaped(&mut text, value);
    text.push('"');
    assert(text@ =~= string_json_text(value@));
    text
}

/// A JSON object member named `name` with the value text `value`.
pub fn field_json(name: &str, value: Vec<char>) -> (text: Vec<char>)
    ensures
        text@ == field_json_text(name@, value@),
{
    let name = chars_of(name);
    let mut text = Vec::new();
    text.push('"');
    push_escaped(&mut text, name.as_slice());
    text.push('"');
    text.push(':');
    push_chars(&mut text, value.as_slice());
    assert(text@ =~= field_json_text(name@, value@));
    text
}

/// The parts joined with `sep` between neighbours.
pub fn join_parts(parts: &[Vec<char>], sep: &str) -> (text: Vec<char>)
    ensures
        text@ == join(views(parts@), sep@),
{
    let mut text = Vec::new();
    let mut j: usize = 0;
    while j < parts.len()
        invariant
            j <= parts@.len(),
            text@ == join(views(parts@).take(j as int), sep@),
        decreases parts@.len() - j,
    {
        let ghost before = views(parts@).take(j as int);
        assert(views(parts@).take(j + 1).drop_last() =~= before);
        if j > 0 {
            push_str(&mut text, sep);
        }
        push_chars(&mut text, parts[j].as_slice());
        j = j + 1;
        proof {
            let now = views(parts@).take(j as int);
            assert(now.last() == parts@[j - 1]@);
            if j == 1 {
                assert(join(before, sep@) =~= Seq::<char>::empty());
            }
            assert(text@ =~= join(now, sep@));
        }
    }
    assert(views(parts@).take(j as int) =~= views(parts@));
    text
}

/// `{"ok":false,"error":"<message>"}`.
pub open spec fn json_error_text(message: Seq<char>) -> Seq<char> {
    "{\"ok\":false,\"error\":"@ + string_json_text(message) + seq!['}']
}

/// The JSON error body for `message`.
pub fn json_error(message: &[char]) -> (text: Vec<char>)
    ensures
        text@ == json_error_text(message@),
{
    let mut text = Vec::new();
    push_str(&mut text, "{\"ok\":false,\"error\":");
    let quoted = string_json(message);
    push_chars(&mut text, quoted.as_slice());
    text.push('}');
    assert(text@ =~= json_error_text(message@));
    text
}

} // verus!
