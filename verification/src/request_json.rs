use vstd::prelude::*;

use crate::args::{insert_sorted, lemma_sorted_unique, sorted_of, strictly_sorted};
use crate::json::{escape_char, hex4, json_escaped, string_json_text};
use crate::text::{
    dec_int, dec_nat, hex_digit_char,
    chars_eq, chars_of, chars_range, chars_skip, chars_start_with, digit_value, is_control,
    is_control_char, push_chars, push_str, starts_with, string_from, to_digit, trim, trim_chars,
    trim_end, trim_start,
    views,
};

verus! {

// ---------------------------------------------------------------------------
// What the parser reads
// ---------------------------------------------------------------------------

/// A JSON value as read from request text; objects keep their members in text order.
pub enum JsonData {
    Object(Seq<(Seq<char>, JsonData)>),
    Text(Seq<char>),
    Number(Seq<char>),
    Bool(bool),
    Null,
}

/// JSON whitespace.
pub open spec fn is_json_ws(c: char) -> bool {
    c == ' ' || c == '\n' || c == '\r' || c == '\t'
}

/// The first position at or after `i` that is not JSON whitespace.
pub open spec fn skip_ws(s: Seq<char>, i: int) -> int
    decreases s.len() - i,
{
    if 0 <= i < s.len() && is_json_ws(s[i]) {
        skip_ws(s, i + 1)
    } else {
        i
    }
}

pub proof fn lemma_skip_ws_bounds(s: Seq<char>, i: int)
    requires
        0 <= i <= s.len(),
    ensures
        i <= skip_ws(s, i) <= s.len(),
    decreases s.len() - i,
{
    if 0 <= i < s.len() && is_json_ws(s[i]) {
        lemma_skip_ws_bounds(s, i + 1);
    }
}

/// The char `c` at `i`, or the error that names what was found instead.
pub open spec fn expect_at(s: Seq<char>, i: int, c: char) -> Result<int, Seq<char>> {
    if 0 <= i < s.len() {
        if s[i] == c {
            Ok(i + 1)
        } else {
            Err("expected '"@ + seq![c] + "', got '"@ + seq![s[i]] + "'"@)
        }
    } else {
        Err("expected '"@ + seq![c] + "', got end of JSON"@)
    }
}

/// Reads the four hexadecimal digits of a `\u` escape.
pub open spec fn unicode_digits(s: Seq<char>, i: int, k: nat, code: u32) -> Result<(u32, int), Seq<char>>
    decreases 4 - k,
{
    if k >= 4 {
        Ok((code, i))
    } else if !(0 <= i < s.len()) {
        Err("incomplete JSON unicode escape"@)
    } else {
        match digit_value(s[i], 16) {
            None => Err("invalid JSON unicode escape"@),
            Some(d) => unicode_digits(s, i + 1, k + 1, (code * 16 + d) as u32),
        }
    }
}

/// Whether `code` is a Unicode scalar value (what `char::from_u32` accepts).
pub open spec fn is_scalar(code: u32) -> bool {
    code < 0xD800 || (0xE000 <= code && code <= 0x10FFFF)
}

/// The char that the escape after a backslash at `i - 1` stands for, and where it ends.
pub open spec fn escape_at(s: Seq<char>, i: int) -> Result<(char, int), Seq<char>> {
    if !(0 <= i < s.len()) {
        Err("incomplete JSON escape"@)
    } else {
        let c = s[i];
        if c == '"' {
            Ok(('"', i + 1))
        } else if c == '\\' {
            Ok(('\\', i + 1))
        } else if c == '/' {
            Ok(('/', i + 1))
        } else if c == 'b' {
            Ok(('\u{0008}', i + 1))
        } else if c == 'f' {
            Ok(('\u{000c}', i + 1))
        } else if c == 'n' {
            Ok(('\n', i + 1))
        } else if c == 'r' {
            Ok(('\r', i + 1))
        } else if c == 't' {
            Ok(('\t', i + 1))
        } else if c == 'u' {
            match unicode_digits(s, i + 1, 0, 0) {
                Err(e) => Err(e),
                Ok((code, j)) => if is_scalar(code) {
                    Ok((code as char, j))
                } else {
                    Err("invalid JSON unicode scalar"@)
                },
            }
        } else {
            Err("invalid JSON escape '\\"@ + seq![c] + "'"@)
        }
    }
}

pub proof fn lemma_unicode_digits_advance(s: Seq<char>, i: int, k: nat, code: u32)
    requires
        0 <= i <= s.len(),
        k <= 4,
    ensures
        unicode_digits(s, i, k, code) matches Ok((_, j)) ==> j == i + (4 - k) && j <= s.len(),
    decreases 4 - k,
{
    if k < 4 && 0 <= i < s.len() {
        if let Some(d) = digit_value(s[i], 16) {
            lemma_unicode_digits_advance(s, i + 1, k + 1, (code * 16 + d) as u32);
        }
    }
}

/// An escape that is read moves past at least one char and stays within the text.
pub proof fn lemma_escape_advance(s: Seq<char>, i: int)
    requires
        0 <= i,
    ensures
        escape_at(s, i) matches Ok((_, j)) ==> i < j <= s.len(),
{
    if 0 <= i < s.len() && s[i] == 'u' {
        lemma_unicode_digits_advance(s, i + 1, 0, 0);
    }
}

/// The rest of a string after its opening quote, added to `acc`.
pub open spec fn string_body(s: Seq<char>, i: int, acc: Seq<char>) -> Result<(Seq<char>, int), Seq<char>>
    decreases s.len() - i,
{
    if !(0 <= i < s.len()) {
        Err("unterminated JSON string"@)
    } else {
        let c = s[i];
        if c == '"' {
            Ok((acc, i + 1))
        } else if c == '\\' {
            match escape_at(s, i + 1) {
                Err(e) => Err(e),
                Ok((ch, j)) => {
                    proof {
                        lemma_escape_advance(s, i + 1);
                    }
                    string_body(s, j, acc.push(ch))
                },
            }
        } else if is_control_char(c) {
            Err("control character in JSON string"@)
        } else {
            string_body(s, i + 1, acc.push(c))
        }
    }
}

/// A string starting with its opening quote at `i`.
pub open spec fn string_at(s: Seq<char>, i: int) -> Result<(Seq<char>, int), Seq<char>> {
    match expect_at(s, i, '"') {
        Err(e) => Err(e),
        Ok(j) => string_body(s, j, Seq::empty()),
    }
}

pub proof fn lemma_string_body_advance(s: Seq<char>, i: int, acc: Seq<char>)
    ensures
        string_body(s, i, acc) matches Ok((_, j)) ==> i < j <= s.len(),
    decreases s.len() - i,
{
    if 0 <= i < s.len() {
        let c = s[i];
        if c == '\\' {
            lemma_escape_advance(s, i + 1);
            if let Ok((ch, j)) = escape_at(s, i + 1) {
                lemma_string_body_advance(s, j, acc.push(ch));
            }
        } else if c != '"' && !is_control_char(c) {
            lemma_string_body_advance(s, i + 1, acc.push(c));
        }
    }
}

/// The end of the decimal digits starting at `i`.
pub open spec fn digits_end(s: Seq<char>, i: int) -> int
    decreases s.len() - i,
{
    if 0 <= i < s.len() && '0' <= s[i] && s[i] <= '9' {
        digits_end(s, i + 1)
    } else {
        i
    }
}

/// `i + 1` if `c` is at `i`, else `i`.
pub open spec fn skip_char(s: Seq<char>, i: int, c: char) -> int {
    if 0 <= i < s.len() && s[i] == c {
        i + 1
    } else {
        i
    }
}

/// The end of a number: optional `-`, digits, optional fraction, optional exponent.
pub open spec fn number_end(s: Seq<char>, i: int) -> int {
    let a = skip_char(s, i, '-');
    let b = digits_end(s, a);
    let c = if 0 <= b < s.len() && s[b] == '.' {
        digits_end(s, b + 1)
    } else {
        b
    };
    if 0 <= c < s.len() && (s[c] == 'e' || s[c] == 'E') {
        let e = c + 1;
        let f = if 0 <= e < s.len() && (s[e] == '+' || s[e] == '-') {
            e + 1
        } else {
            e
        };
        digits_end(s, f)
    } else {
        c
    }
}

/// The text of a number at `i`.
pub open spec fn number_at(s: Seq<char>, i: int) -> Result<(Seq<char>, int), Seq<char>> {
    let j = number_end(s, i);
    if j == i {
        Err("invalid JSON number"@)
    } else {
        Ok((s.subrange(i, j), j))
    }
}

/// The literal `lit` at `i`, read as `v`.
pub open spec fn literal_at(s: Seq<char>, i: int, lit: Seq<char>, v: JsonData) -> Result<
    (JsonData, int),
    Seq<char>,
> {
    if 0 <= i <= s.len() && starts_with(s.skip(i), lit) {
        Ok((v, i + lit.len()))
    } else {
        Err("expected JSON literal '"@ + lit + "'"@)
    }
}

/// A value at `i` (after whitespace), and where it ends.
pub open spec fn value_at(s: Seq<char>, i: int) -> Result<(JsonData, int), Seq<char>>
    decreases s.len() - i, 1nat,
{
    if !(0 <= i <= s.len()) {
        Err("unexpected end of JSON"@)
    } else {
        let k = skip_ws(s, i);
        proof {
            lemma_skip_ws_bounds(s, i);
        }
        if k >= s.len() {
            Err("unexpected end of JSON"@)
        } else {
            let c = s[k];
            if c == '{' {
                object_at(s, k)
            } else if c == '"' {
                match string_at(s, k) {
                    Ok((t, j)) => Ok((JsonData::Text(t), j)),
                    Err(e) => Err(e),
                }
            } else if c == 't' {
                literal_at(s, k, "true"@, JsonData::Bool(true))
            } else if c == 'f' {
                literal_at(s, k, "false"@, JsonData::Bool(false))
            } else if c == 'n' {
                literal_at(s, k, "null"@, JsonData::Null)
            } else if c == '-' || ('0' <= c && c <= '9') {
                match number_at(s, k) {
                    Ok((t, j)) => Ok((JsonData::Number(t), j)),
                    Err(e) => Err(e),
                }
            } else {
                Err("unexpected JSON character '"@ + seq![c] + "'"@)
            }
        }
    }
}

/// An object whose `{` is at `i`.
pub open spec fn object_at(s: Seq<char>, i: int) -> Result<(JsonData, int), Seq<char>>
    decreases s.len() - i, 0nat,
{
    if !(0 <= i <= s.len()) {
        Err("unexpected end of JSON"@)
    } else {
        match expect_at(s, i, '{') {
            Err(e) => Err(e),
            Ok(j) => {
                let k = skip_ws(s, j);
                proof {
                    lemma_skip_ws_bounds(s, j);
                }
                if k < s.len() && s[k] == '}' {
                    Ok((JsonData::Object(Seq::empty()), k + 1))
                } else {
                    members_at(s, k, Seq::empty())
                }
            },
        }
    }
}

/// The members of an object from `i` on, added to `acc`, up to the closing `}`.
/// (Each value takes at least one char, so the check that the position moved on never
/// fails.)
pub open spec fn members_at(s: Seq<char>, i: int, acc: Seq<(Seq<char>, JsonData)>) -> Result<
    (JsonData, int),
    Seq<char>,
>
    decreases s.len() - i, 0nat,
{
    if !(0 <= i <= s.len()) {
        Err("unexpected end of JSON"@)
    } else {
        let a = skip_ws(s, i);
        proof {
            lemma_skip_ws_bounds(s, i);
        }
        match string_at(s, a) {
            Err(e) => Err(e),
            Ok((key, b)) => {
                proof {
                    lemma_string_body_advance(s, a + 1, Seq::empty());
                    lemma_skip_ws_bounds(s, b);
                }
                let c = skip_ws(s, b);
                match expect_at(s, c, ':') {
                    Err(e) => Err(e),
                    Ok(d) => match value_at(s, d) {
                        Err(e) => Err(e),
                        Ok((v, e)) => {
                            let acc2 = acc.push((key, v));
                            let f = skip_ws(s, e);
                            if 0 <= f < s.len() && s[f] == '}' {
                                Ok((JsonData::Object(acc2), f + 1))
                            } else {
                                match expect_at(s, f, ',') {
                                    Err(err) => Err(err),
                                    Ok(g) => if i < g <= s.len() {
                                        members_at(s, g, acc2)
                                    } else {
                                        Err(Seq::empty())
                                    },
                                }
                            }
                        },
                    },
                }
            },
        }
    }
}

// ---------------------------------------------------------------------------
// The parser
// ---------------------------------------------------------------------------

/// A JSON value as the parser builds it.
pub enum JsonValue {
    Object(Vec<(Vec<char>, JsonValue)>),
    String(Vec<char>),
    Number(Vec<char>),
    Bool(bool),
    Null,
}

pub open spec fn json_view(v: JsonValue) -> JsonData
    decreases v, 0nat,
{
    match v {
        JsonValue::Object(m) => JsonData::Object(members_view(m, m@.len())),
        JsonValue::String(t) => JsonData::Text(t@),
        JsonValue::Number(t) => JsonData::Number(t@),
        JsonValue::Bool(b) => JsonData::Bool(b),
        JsonValue::Null => JsonData::Null,
    }
}

/// The first `n` members, each taken by its view.
pub open spec fn members_view(m: Vec<(Vec<char>, JsonValue)>, n: nat) -> Seq<(Seq<char>, JsonData)>
    decreases m, n,
{
    if n == 0 || n > m@.len() {
        Seq::empty()
    } else {
        proof {
            broadcast use vstd::std_specs::vec::axiom_vec_index_decreases;

            assert(decreases_to!(m => m[n - 1]));
        }
        members_view(m, (n - 1) as nat).push((m@[n - 1].0@, json_view(m@[n - 1].1)))
    }
}

/// The members of `m`, each taken by its view.
pub open spec fn members_of(m: Vec<(Vec<char>, JsonValue)>) -> Seq<(Seq<char>, JsonData)> {
    members_view(m, m@.len())
}

pub proof fn lemma_members_view_index(m: Vec<(Vec<char>, JsonValue)>, n: nat)
    requires
        n <= m@.len(),
    ensures
        members_view(m, n).len() == n,
        forall|k: int|
            0 <= k < n ==> #[trigger] members_view(m, n)[k] == (m@[k].0@, json_view(m@[k].1)),
    decreases n,
{
    if n > 0 {
        lemma_members_view_index(m, (n - 1) as nat);
    }
}

/// Appending a member appends its view.
pub proof fn lemma_members_push(
    m1: Vec<(Vec<char>, JsonValue)>,
    m2: Vec<(Vec<char>, JsonValue)>,
    x: (Vec<char>, JsonValue),
)
    requires
        m2@ == m1@.push(x),
    ensures
        members_of(m2) == members_of(m1).push((x.0@, json_view(x.1))),
{
    lemma_members_view_index(m1, m1@.len());
    lemma_members_view_index(m2, m2@.len());
    assert(members_of(m2) =~= members_of(m1).push((x.0@, json_view(x.1))));
}

/// Calls `char::from_u32`, which gives the char whose scalar value is `code`, or nothing
/// for a surrogate or a value above `0x10FFFF`.
#[verifier::external_body]
fn char_from_u32(code: u32) -> (c: Option<char>)
    ensures
        c == (if is_scalar(code) {
            Some(code as char)
        } else {
            None::<char>
        }),
{
    char::from_u32(code)
}

struct JsonParser {
    input: Vec<char>,
    index: usize,
}

/// Same outcome as `expected`, with the parsed value and error taken by their views.
pub open spec fn parsed<T, V>(
    r: Result<T, Vec<char>>,
    view: spec_fn(T) -> V,
    end: int,
    expected: Result<(V, int), Seq<char>>,
) -> bool {
    match r {
        Ok(v) => expected == Ok::<(V, int), Seq<char>>((view(v), end)),
        Err(e) => expected == Err::<(V, int), Seq<char>>(e@),
    }
}

impl JsonParser {
    fn new(input: Vec<char>) -> (parser: JsonParser)
        ensures
            parser.input@ == input@,
            parser.index == 0,
    {
        JsonParser { input, index: 0 }
    }

    fn peek(&self) -> (c: Option<char>)
        ensures
            c == (if self.index < self.input@.len() {
                Some(self.input@[self.index as int])
            } else {
                None::<char>
            }),
    {
        if self.index < self.input.len() {
            Some(self.input[self.index])
        } else {
            None
        }
    }

    fn next(&mut self) -> (c: Option<char>)
        requires
            old(self).index <= old(self).input@.len(),
        ensures
            final(self).input == old(self).input,
            c == (if old(self).index < old(self).input@.len() {
                Some(old(self).input@[old(self).index as int])
            } else {
                None::<char>
            }),
            final(self).index == (if old(self).index < old(self).input@.len() {
                old(self).index + 1
            } else {
                old(self).index as int
            }),
    {
        if self.index < self.input.len() {
            let c = self.input[self.index];
            self.index = self.index + 1;
            Some(c)
        } else {
            None
        }
    }

    fn skip_whitespace(&mut self)
        requires
            old(self).index <= old(self).input@.len(),
        ensures
            final(self).input == old(self).input,
            old(self).index <= final(self).index <= final(self).input@.len(),
            final(self).index == skip_ws(old(self).input@, old(self).index as int),
    {
        while self.index < self.input.len() && (self.input[self.index] == ' '
            || self.input[self.index] == '\n' || self.input[self.index] == '\r'
            || self.input[self.index] == '\t')
            invariant
                self.input == old(self).input,
                old(self).index <= self.index <= self.input@.len(),
                skip_ws(self.input@, old(self).index as int) == skip_ws(
                    self.input@,
                    self.index as int,
                ),
            decreases self.input@.len() - self.index,
        {
            self.index = self.index + 1;
        }
    }

    fn consume_digits(&mut self)
        requires
            old(self).index <= old(self).input@.len(),
        ensures
            final(self).input == old(self).input,
            old(self).index <= final(self).index <= final(self).input@.len(),
            final(self).index == digits_end(old(self).input@, old(self).index as int),
    {
        while self.index < self.input.len() && '0' <= self.input[self.index]
            && self.input[self.index] <= '9'
            invariant
                self.input == old(self).input,
                old(self).index <= self.index <= self.input@.len(),
                digits_end(self.input@, old(self).index as int) == digits_end(
                    self.input@,
                    self.index as int,
                ),
            decreases self.input@.len() - self.index,
        {
            self.index = self.index + 1;
        }
    }

    fn consume(&mut self, expected: char) -> (found: bool)
        requires
            old(self).index <= old(self).input@.len(),
        ensures
            final(self).input == old(self).input,
            old(self).index <= final(self).index <= final(self).input@.len(),
            final(self).index == skip_char(old(self).input@, old(self).index as int, expected),
            found == (final(self).index != old(self).index),
    {
        if self.peek() == Some(expected) {
            self.next();
            true
        } else {
            false
        }
    }

    fn expect(&mut self, expected: char) -> (r: Result<(), Vec<char>>)
        requires
            old(self).index <= old(self).input@.len(),
        ensures
            final(self).input == old(self).input,
            final(self).index <= final(self).input@.len(),
            match r {
                Ok(_) => expect_at(old(self).input@, old(self).index as int, expected) == Ok::<
                    int,
                    Seq<char>,
                >(final(self).index as int),
                Err(e) => expect_at(old(self).input@, old(self).index as int, expected) == Err::<
                    int,
                    Seq<char>,
                >(e@),
            },
    {
        match self.next() {
            Some(actual) => if actual == expected {
                Ok(())
            } else {
                let mut e = Vec::new();
                push_str(&mut e, "expected '");
                e.push(expected);
                push_str(&mut e, "', got '");
                e.push(actual);
                push_str(&mut e, "'");
                assert(e@ =~= "expected '"@ + seq![expected] + "', got '"@ + seq![actual] + "'"@);
                Err(e)
            },
            None => {
                let mut e = Vec::new();
                push_str(&mut e, "expected '");
                e.push(expected);
                push_str(&mut e, "', got end of JSON");
                assert(e@ =~= "expected '"@ + seq![expected] + "', got end of JSON"@);
                Err(e)
            },
        }
    }

    /// The four hexadecimal digits of a `\u` escape, as a number.
    fn parse_unicode_digits(&mut self) -> (r: Result<u32, Vec<char>>)
        requires
            old(self).index <= old(self).input@.len(),
        ensures
            final(self).input == old(self).input,
            final(self).index <= final(self).input@.len(),
            match r {
                Ok(code) => unicode_digits(old(self).input@, old(self).index as int, 0, 0)
                    == Ok::<(u32, int), Seq<char>>((code, final(self).index as int)),
                Err(e) => unicode_digits(old(self).input@, old(self).index as int, 0, 0) == Err::<
                    (u32, int),
                    Seq<char>,
                >(e@),
            },
    {
        let ghost s = self.input@;
        let ghost i = self.index as int;
        let mut code: u32 = 0;
        let mut k: usize = 0;
        while k < 4
            invariant
                self.input == old(self).input,
                self.input@ == s,
                i == old(self).index,
                k <= 4,
                self.index == i + k,
                self.index <= s.len(),
                code < pow16(k as nat),
                unicode_digits(s, i, 0, 0) == unicode_digits(s, self.index as int, k as nat, code),
            decreases 4 - k,
        {
            proof {
                lemma_pow16_step(k as nat);
            }
            let c = match self.next() {
                Some(c) => c,
                None => {
                    let mut e = Vec::new();
                    push_str(&mut e, "incomplete JSON unicode escape");
                    return Err(e);
                },
            };
            let d = match to_digit(c, 16) {
                Some(d) => d,
                None => {
                    let mut e = Vec::new();
                    push_str(&mut e, "invalid JSON unicode escape");
                    return Err(e);
                },
            };
            assert(code * 16 + d < pow16((k + 1) as nat)) by (nonlinear_arith)
                requires
                    code < pow16(k as nat),
                    d < 16,
                    pow16((k + 1) as nat) == pow16(k as nat) * 16,
            ;
            code = code * 16 + d;
            k = k + 1;
        }
        Ok(code)
    }

    fn parse_escape(&mut self) -> (r: Result<char, Vec<char>>)
        requires
            old(self).index <= old(self).input@.len(),
        ensures
            final(self).input == old(self).input,
            final(self).index <= final(self).input@.len(),
            parsed(r, |c: char| c, final(self).index as int, escape_at(old(self).input@, old(self).index as int)),
    {
        match self.next() {
            Some('"') => Ok('"'),
            Some('\\') => Ok('\\'),
            Some('/') => Ok('/'),
            Some('b') => Ok('\u{0008}'),
            Some('f') => Ok('\u{000c}'),
            Some('n') => Ok('\n'),
            Some('r') => Ok('\r'),
            Some('t') => Ok('\t'),
            Some('u') => {
                let code = match self.parse_unicode_digits() {
                    Ok(code) => code,
                    Err(e) => return Err(e),
                };
                match char_from_u32(code) {
                    Some(c) => Ok(c),
                    None => {
                        let mut e = Vec::new();
                        push_str(&mut e, "invalid JSON unicode scalar");
                        Err(e)
                    },
                }
            },
            Some(c) => {
                let mut e = Vec::new();
                push_str(&mut e, "invalid JSON escape '\\");
                e.push(c);
                push_str(&mut e, "'");
                assert(e@ =~= "invalid JSON escape '\\"@ + seq![c] + "'"@);
                Err(e)
            },
            None => {
                let mut e = Vec::new();
                push_str(&mut e, "incomplete JSON escape");
                Err(e)
            },
        }
    }

    fn parse_string(&mut self) -> (r: Result<Vec<char>, Vec<char>>)
        requires
            old(self).index <= old(self).input@.len(),
        ensures
            final(self).input == old(self).input,
            final(self).index <= final(self).input@.len(),
            r is Ok ==> old(self).index < final(self).index,
            parsed(r, |t: Vec<char>| t@, final(self).index as int, string_at(old(self).input@, old(self).index as int)),
    {
        let ghost s = self.input@;
        match self.expect('"') {
            Ok(_) => {},
            Err(e) => return Err(e),
        }
        let mut value: Vec<char> = Vec::new();
        loop
            invariant
                self.input == old(self).input,
                self.input@ == s,
                old(self).index < self.index <= s.len(),
                string_at(s, old(self).index as int) == string_body(s, self.index as int, value@),
            decreases s.len() - self.index,
        {
            match self.next() {
                Some(c) => {
                    if c == '"' {
                        return Ok(value);
                    } else if c == '\\' {
                        let ghost at = self.index as int;
                        match self.parse_escape() {
                            Ok(ch) => {
                                proof {
                                    lemma_escape_advance(s, at);
                                }
                                value.push(ch);
                            },
                            Err(e) => return Err(e),
                        }
                    } else if is_control(c) {
                        let mut e = Vec::new();
                        push_str(&mut e, "control character in JSON string");
                        return Err(e);
                    } else {
                        value.push(c);
                    }
                },
                None => {
                    let mut e = Vec::new();
                    push_str(&mut e, "unterminated JSON string");
                    return Err(e);
                },
            }
        }
    }

    fn parse_number(&mut self) -> (r: Result<Vec<char>, Vec<char>>)
        requires
            old(self).index <= old(self).input@.len(),
        ensures
            final(self).input == old(self).input,
            old(self).index <= final(self).index <= final(self).input@.len(),
            parsed(r, |t: Vec<char>| t@, final(self).index as int, number_at(old(self).input@, old(self).index as int)),
    {
        let start = self.index;
        self.consume('-');
        self.consume_digits();
        if self.consume('.') {
            self.consume_digits();
        }
        if self.consume('e') || self.consume('E') {
            let _ = self.consume('+') || self.consume('-');
            self.consume_digits();
        }
        if self.index == start {
            let mut e = Vec::new();
            push_str(&mut e, "invalid JSON number");
            Err(e)
        } else {
            Ok(chars_range(self.input.as_slice(), start, self.index))
        }
    }

    fn parse(&mut self) -> (r: Result<JsonValue, Vec<char>>)
        requires
            old(self).index <= old(self).input@.len(),
        ensures
            final(self).input == old(self).input,
            final(self).index <= final(self).input@.len(),
            r is Ok ==> old(self).index <= final(self).index,
            parsed(r, |v: JsonValue| json_view(v), final(self).index as int, value_at(old(self).input@, old(self).index as int)),
        decreases old(self).input@.len() - old(self).index, 1nat,
    {
        self.skip_whitespace();
        match self.peek() {
            Some('{') => self.parse_object(),
            Some('"') => match self.parse_string() {
                Ok(t) => Ok(JsonValue::String(t)),
                Err(e) => Err(e),
            },
            Some('t') => self.parse_literal("true", JsonValue::Bool(true)),
            Some('f') => self.parse_literal("false", JsonValue::Bool(false)),
            Some('n') => self.parse_literal("null", JsonValue::Null),
            Some(c) => if c == '-' || ('0' <= c && c <= '9') {
                match self.parse_number() {
                    Ok(t) => Ok(JsonValue::Number(t)),
                    Err(e) => Err(e),
                }
            } else {
                let mut e = Vec::new();
                push_str(&mut e, "unexpected JSON character '");
                e.push(c);
                push_str(&mut e, "'");
                assert(e@ =~= "unexpected JSON character '"@ + seq![c] + "'"@);
                Err(e)
            },
            None => {
                let mut e = Vec::new();
                push_str(&mut e, "unexpected end of JSON");
                Err(e)
            },
        }
    }

    fn parse_object(&mut self) -> (r: Result<JsonValue, Vec<char>>)
        requires
            old(self).index <= old(self).input@.len(),
        ensures
            final(self).input == old(self).input,
            final(self).index <= final(self).input@.len(),
            r is Ok ==> old(self).index <= final(self).index,
            parsed(r, |v: JsonValue| json_view(v), final(self).index as int, object_at(old(self).input@, old(self).index as int)),
        decreases old(self).input@.len() - old(self).index, 0nat,
    {
        let ghost s = self.input@;
        let ghost i0 = self.index as int;
        match self.expect('{') {
            Ok(_) => {},
            Err(e) => return Err(e),
        }
        let mut object: Vec<(Vec<char>, JsonValue)> = Vec::new();
        self.skip_whitespace();
        if self.consume('}') {
            return Ok(JsonValue::Object(object));
        }
        loop
            invariant
                self.input == old(self).input,
                self.input@ == s,
                i0 == old(self).index,
                i0 < self.index <= s.len(),
                object_at(s, i0) == members_at(s, self.index as int, members_of(object)),
            decreases s.len() - self.index,
        {
            self.skip_whitespace();
            let ghost a = self.index as int;
            let key = match self.parse_string() {
                Ok(key) => key,
                Err(e) => return Err(e),
            };
            proof {
                lemma_string_body_advance(s, a + 1, Seq::empty());
            }
            self.skip_whitespace();
            match self.expect(':') {
                Ok(_) => {},
                Err(e) => return Err(e),
            }
            let value = match self.parse() {
                Ok(value) => value,
                Err(e) => return Err(e),
            };
            let ghost before = object;
            let ghost member = (key, value);
            object.push((key, value));
            proof {
                lemma_members_push(before, object, member);
            }
            self.skip_whitespace();
            if self.consume('}') {
                return Ok(JsonValue::Object(object));
            }
            match self.expect(',') {
                Ok(_) => {},
                Err(e) => return Err(e),
            }
        }
    }

    fn finish(&mut self) -> (r: Result<(), Vec<char>>)
        requires
            old(self).index <= old(self).input@.len(),
        ensures
            final(self).input == old(self).input,
            match r {
                Ok(_) => skip_ws(old(self).input@, old(self).index as int) == old(self).input@.len(),
                Err(e) => skip_ws(old(self).input@, old(self).index as int) != old(self).input@.len()
                    && e@ == "unexpected data after JSON object"@,
            },
    {
        self.skip_whitespace();
        if self.index == self.input.len() {
            Ok(())
        } else {
            let mut e = Vec::new();
            push_str(&mut e, "unexpected data after JSON object");
            Err(e)
        }
    }

    fn parse_literal(&mut self, literal: &str, value: JsonValue) -> (r: Result<JsonValue, Vec<char>>)
        requires
            old(self).index <= old(self).input@.len(),
        ensures
            final(self).input == old(self).input,
            old(self).index <= final(self).index <= final(self).input@.len(),
            parsed(r, |v: JsonValue| json_view(v), final(self).index as int, literal_at(old(self).input@, old(self).index as int, literal@, json_view(value))),
    {
        let lit = chars_of(literal);
        let rest = chars_skip(self.input.as_slice(), self.index);
        if chars_start_with(rest.as_slice(), literal) {
            assert(lit@.len() <= rest@.len());
            assert(rest@.len() == self.input@.len() - self.index);
            assert(self.input@.len() == self.input.len());
            self.index = self.index + lit.len();
            Ok(value)
        } else {
            let mut e = Vec::new();
            push_str(&mut e, "expected JSON literal '");
            push_chars(&mut e, lit.as_slice());
            push_str(&mut e, "'");
            assert(e@ =~= "expected JSON literal '"@ + literal@ + "'"@);
            Err(e)
        }
    }
}

/// `16` to the power `k`.
pub open spec fn pow16(k: nat) -> nat
    decreases k,
{
    if k == 0 {
        1
    } else {
        16 * pow16((k - 1) as nat)
    }
}

proof fn lemma_pow16_step(k: nat)
    requires
        k < 4,
    ensures
        pow16(k + 1) == pow16(k) * 16,
        pow16(k) <= 4096,
{
    reveal_with_fuel(pow16, 5);
}


// ---------------------------------------------------------------------------
// From a request body to a command line
// ---------------------------------------------------------------------------

/// The value of the last member named `key`: a later member replaces an earlier one.
pub open spec fn member(ms: Seq<(Seq<char>, JsonData)>, key: Seq<char>) -> Option<JsonData>
    decreases ms.len(),
{
    if ms.len() == 0 {
        None
    } else if ms.last().0 == key {
        Some(ms.last().1)
    } else {
        member(ms.drop_last(), key)
    }
}

/// The names of the members.
pub open spec fn member_keys(ms: Seq<(Seq<char>, JsonData)>) -> Set<Seq<char>> {
    Set::new(|k: Seq<char>| exists|i: int| 0 <= i < ms.len() && #[trigger] ms[i].0 == k)
}

/// The text that an argument value stands for on a command line.
pub open spec fn arg_text(v: JsonData) -> Result<Seq<char>, Seq<char>> {
    match v {
        JsonData::Text(t) => Ok(t),
        JsonData::Number(t) => Ok(t),
        JsonData::Bool(b) => Ok(if b {
            "true"@
        } else {
            "false"@
        }),
        JsonData::Null => Err("argument values cannot be null"@),
        JsonData::Object(_) => Err("nested argument objects are not supported"@),
    }
}

/// `line` followed by ` --key value` for each of `keys` in turn, the value being that of
/// the member of `am` so named; the first value that has no text is the error.
pub open spec fn append_args(
    line: Seq<char>,
    am: Seq<(Seq<char>, JsonData)>,
    keys: Seq<Seq<char>>,
) -> Result<Seq<char>, Seq<char>>
    decreases keys.len(),
{
    if keys.len() == 0 {
        Ok(line)
    } else {
        match member(am, keys[0]) {
            None => append_args(line, am, keys.drop_first()),
            Some(v) => match arg_text(v) {
                Err(e) => Err(e),
                Ok(t) => append_args(line + " --"@ + keys[0] + " "@ + t, am, keys.drop_first()),
            },
        }
    }
}

/// The command line that the members of a request object describe: its `line` if that is
/// a string, else its `command` with its `args` in the order of their names.
pub open spec fn line_from_members(ms: Seq<(Seq<char>, JsonData)>) -> Result<Seq<char>, Seq<char>> {
    match member(ms, "line"@) {
        Some(JsonData::Text(line)) => Ok(line),
        _ => match member(ms, "command"@) {
            None => Err("JSON request needs either 'line' or 'command'"@),
            Some(JsonData::Text(command)) => if trim(command).len() == 0 {
                Err("JSON field 'command' must be a non-empty string"@)
            } else {
                match member(ms, "args"@) {
                    None => Ok(command),
                    Some(JsonData::Object(am)) => append_args(
                        command,
                        am,
                        sorted_of(member_keys(am)),
                    ),
                    Some(_) => Err("JSON field 'args' must be an object"@),
                }
            },
            Some(_) => Err("JSON field 'command' must be a non-empty string"@),
        },
    }
}

/// The command line of a JSON request body.
pub open spec fn spec_command_line_from_json(s: Seq<char>) -> Result<Seq<char>, Seq<char>> {
    match value_at(s, 0) {
        Err(e) => Err(e),
        Ok((v, j)) => match v {
            JsonData::Object(ms) => if skip_ws(s, j) == s.len() {
                line_from_members(ms)
            } else {
                Err("unexpected data after JSON object"@)
            },
            _ => Err("JSON request body must be an object"@),
        },
    }
}

/// The command line of a request body: the trimmed body itself, or, where it starts with
/// `{`, what the JSON object in it describes.
pub open spec fn spec_command_line_from_body(s: Seq<char>) -> Result<Seq<char>, Seq<char>> {
    let t = trim(s);
    if t.len() == 0 {
        Err("request body is empty"@)
    } else if t[0] == '{' {
        spec_command_line_from_json(t)
    } else {
        Ok(t)
    }
}

/// The same outcome as `expected`, with the strings taken by their views.
pub open spec fn same_text(r: Result<String, String>, expected: Result<Seq<char>, Seq<char>>) -> bool {
    match r {
        Ok(t) => expected == Ok::<Seq<char>, Seq<char>>(t@),
        Err(e) => expected == Err::<Seq<char>, Seq<char>>(e@),
    }
}

/// The position of the last member named `key`.
fn find_member(members: &Vec<(Vec<char>, JsonValue)>, key: &[char]) -> (found: Option<usize>)
    ensures
        match found {
            Some(k) => k < members@.len() && member(members_of(*members), key@) == Some(
                json_view(members@[k as int].1),
            ),
            None => member(members_of(*members), key@) == None::<JsonData>,
        },
{
    let ghost ms = members_of(*members);
    proof {
        lemma_members_view_index(*members, members@.len());
        assert(ms.take(ms.len() as int) =~= ms);
    }
    let mut i = members.len();
    while i > 0
        invariant
            i <= members@.len(),
            ms == members_of(*members),
            ms.len() == members@.len(),
            forall|k: int|
                0 <= k < ms.len() ==> #[trigger] ms[k] == (members@[k].0@, json_view(members@[k].1)),
            member(ms, key@) == member(ms.take(i as int), key@),
        decreases i,
    {
        assert(ms.take(i as int).last() == ms[i - 1]);
        if chars_eq(members[i - 1].0.as_slice(), key) {
            return Some(i - 1);
        }
        assert(ms.take(i as int).drop_last() =~= ms.take(i - 1));
        i = i - 1;
    }
    None
}

/// The text that an argument value stands for on a command line.
fn json_arg_value(value: &JsonValue) -> (r: Result<Vec<char>, Vec<char>>)
    ensures
        match r {
            Ok(t) => arg_text(json_view(*value)) == Ok::<Seq<char>, Seq<char>>(t@),
            Err(e) => arg_text(json_view(*value)) == Err::<Seq<char>, Seq<char>>(e@),
        },
{
    let mut out = Vec::new();
    match value {
        JsonValue::String(t) => {
            push_chars(&mut out, t.as_slice());
            Ok(out)
        },
        JsonValue::Number(t) => {
            push_chars(&mut out, t.as_slice());
            Ok(out)
        },
        JsonValue::Bool(b) => {
            if *b {
                push_str(&mut out, "true");
            } else {
                push_str(&mut out, "false");
            }
            Ok(out)
        },
        JsonValue::Null => {
            push_str(&mut out, "argument values cannot be null");
            Err(out)
        },
        JsonValue::Object(_) => {
            push_str(&mut out, "nested argument objects are not supported");
            Err(out)
        },
    }
}

/// Whether `key` is among `keys`.
fn contains_key(keys: &Vec<Vec<char>>, key: &[char]) -> (found: bool)
    ensures
        found == views(keys@).contains(key@),
{
    let mut i: usize = 0;
    while i < keys.len()
        invariant
            i <= keys@.len(),
            forall|j: int| 0 <= j < i ==> keys@[j]@ != key@,
        decreases keys@.len() - i,
    {
        if chars_eq(keys[i].as_slice(), key) {
            assert(views(keys@)[i as int] == key@);
            return true;
        }
        i = i + 1;
    }
    proof {
        if views(keys@).contains(key@) {
            let j = choose|j: int| 0 <= j < views(keys@).len() && views(keys@)[j] == key@;
            assert(keys@[j]@ == key@);
        }
    }
    false
}

/// The names of the members, each once, in order.
fn sorted_member_keys(members: &Vec<(Vec<char>, JsonValue)>) -> (keys: Vec<Vec<char>>)
    ensures
        views(keys@) == sorted_of(member_keys(members_of(*members))),
{
    let ghost ms = members_of(*members);
    proof {
        lemma_members_view_index(*members, members@.len());
    }
    let mut keys: Vec<Vec<char>> = Vec::new();
    let mut i: usize = 0;
    while i < members.len()
        invariant
            i <= members@.len(),
            ms == members_of(*members),
            ms.len() == members@.len(),
            forall|k: int|
                0 <= k < ms.len() ==> #[trigger] ms[k] == (members@[k].0@, json_view(members@[k].1)),
            strictly_sorted(views(keys@)),
            views(keys@).to_set() == member_keys(ms.take(i as int)),
        decreases members@.len() - i,
    {
        let ghost before = views(keys@).to_set();
        if !contains_key(&keys, members[i].0.as_slice()) {
            let mut key = Vec::new();
            push_chars(&mut key, members[i].0.as_slice());
            insert_sorted(&mut keys, key);
        }
        proof {
            assert(ms[i as int].0 == members@[i as int].0@);
            assert(views(keys@).to_set() =~= member_keys(ms.take(i + 1))) by {
                assert forall|k: Seq<char>| member_keys(ms.take(i + 1)).contains(k) implies views(
                    keys@,
                ).to_set().contains(k) by {
                    let j = choose|j: int| 0 <= j < i + 1 && #[trigger] ms.take(i + 1)[j].0 == k;
                    if j < i {
                        assert(ms.take(i as int)[j].0 == k);
                        assert(member_keys(ms.take(i as int)).contains(k));
                    }
                }
                assert forall|k: Seq<char>| views(keys@).to_set().contains(k) implies member_keys(
                    ms.take(i + 1),
                ).contains(k) by {
                    if before.contains(k) {
                        let j = choose|j: int| 0 <= j < i && #[trigger] ms.take(i as int)[j].0 == k;
                        assert(ms.take(i + 1)[j].0 == k);
                    } else {
                        assert(ms.take(i + 1)[i as int].0 == k);
                    }
                }
            }
        }
        i = i + 1;
    }
    proof {
        assert(ms.take(ms.len() as int) =~= ms);
        let set = member_keys(ms);
        assert(strictly_sorted(views(keys@)) && views(keys@).to_set() == set);
        let chosen = sorted_of(set);
        lemma_sorted_unique(views(keys@), chosen);
    }
    keys
}

/// Builds the command line that a JSON request body describes.
pub fn command_line_from_json(body: &str) -> (r: Result<String, String>)
    ensures
        same_text(r, spec_command_line_from_json(body@)),
{
    match line_from_json(chars_of(body)) {
        Ok(line) => Ok(string_from(line.as_slice())),
        Err(e) => Err(string_from(e.as_slice())),
    }
}

/// Takes the command line out of a request body: the trimmed body itself, or, where it
/// starts with `{`, what the JSON object in it describes.
pub fn command_line_from_body(body: &str) -> (r: Result<String, String>)
    ensures
        same_text(r, spec_command_line_from_body(body@)),
{
    let chars = chars_of(body);
    let trimmed = trim_chars(chars.as_slice());
    if trimmed.len() == 0 {
        let mut e = Vec::new();
        push_str(&mut e, "request body is empty");
        return Err(string_from(e.as_slice()));
    }
    if trimmed[0] == '{' {
        match line_from_json(trimmed) {
            Ok(line) => Ok(string_from(line.as_slice())),
            Err(e) => Err(string_from(e.as_slice())),
        }
    } else {
        Ok(string_from(trimmed.as_slice()))
    }
}

fn line_from_json(input: Vec<char>) -> (r: Result<Vec<char>, Vec<char>>)
    ensures
        match r {
            Ok(t) => spec_command_line_from_json(input@) == Ok::<Seq<char>, Seq<char>>(t@),
            Err(e) => spec_command_line_from_json(input@) == Err::<Seq<char>, Seq<char>>(e@),
        },
{
    let mut parser = JsonParser::new(input);
    let value = match parser.parse() {
        Ok(value) => value,
        Err(e) => return Err(e),
    };
    let members = match value {
        JsonValue::Object(members) => members,
        _ => {
            let mut e = Vec::new();
            push_str(&mut e, "JSON request body must be an object");
            return Err(e);
        },
    };
    match parser.finish() {
        Ok(_) => {},
        Err(e) => return Err(e),
    }
    line_from_object(&members)
}

fn line_from_object(members: &Vec<(Vec<char>, JsonValue)>) -> (r: Result<Vec<char>, Vec<char>>)
    ensures
        match r {
            Ok(t) => line_from_members(members_of(*members)) == Ok::<Seq<char>, Seq<char>>(t@),
            Err(e) => line_from_members(members_of(*members)) == Err::<Seq<char>, Seq<char>>(e@),
        },
{
    let line_key = chars_of("line");
    if let Some(k) = find_member(members, line_key.as_slice()) {
        if let JsonValue::String(line) = &members[k].1 {
            let mut out = Vec::new();
            push_chars(&mut out, line.as_slice());
            return Ok(out);
        }
    }
    let command_key = chars_of("command");
    let mut line = match find_member(members, command_key.as_slice()) {
        None => {
            let mut e = Vec::new();
            push_str(&mut e, "JSON request needs either 'line' or 'command'");
            return Err(e);
        },
        Some(k) => match &members[k].1 {
            JsonValue::String(command) => {
                let trimmed = trim_chars(command.as_slice());
                if trimmed.len() == 0 {
                    let mut e = Vec::new();
                    push_str(&mut e, "JSON field 'command' must be a non-empty string");
                    return Err(e);
                }
                let mut out = Vec::new();
                push_chars(&mut out, command.as_slice());
                out
            },
            _ => {
                let mut e = Vec::new();
                push_str(&mut e, "JSON field 'command' must be a non-empty string");
                return Err(e);
            },
        },
    };
    let args_key = chars_of("args");
    match find_member(members, args_key.as_slice()) {
        None => Ok(line),
        Some(k) => match &members[k].1 {
            JsonValue::Object(am) => {
                let keys = sorted_member_keys(am);
                let ghost all = views(keys@);
                let ghost am_v = members_of(*am);
                let ghost target = append_args(line@, am_v, all);
                let mut i: usize = 0;
                assert(all.skip(0) =~= all);
                while i < keys.len()
                    invariant
                        i <= keys@.len(),
                        all == views(keys@),
                        am_v == members_of(*am),
                        target == append_args(line@, am_v, all.skip(i as int)),
                        line_from_members(members_of(*members)) == target,
                    decreases keys@.len() - i,
                {
                    assert(all.skip(i as int).drop_first() =~= all.skip(i + 1));
                    assert(all.skip(i as int)[0] == keys@[i as int]@);
                    match find_member(am, keys[i].as_slice()) {
                        None => {},
                        Some(k) => match json_arg_value(&am[k].1) {
                            Ok(t) => {
                                let ghost before = line@;
                                push_str(&mut line, " --");
                                push_chars(&mut line, keys[i].as_slice());
                                push_str(&mut line, " ");
                                push_chars(&mut line, t.as_slice());
                                assert(line@ =~= before + " --"@ + keys@[i as int]@ + " "@ + t@);
                            },
                            Err(e) => {
                                assert(append_args(line@, am_v, all.skip(i as int)) == Err::<
                                    Seq<char>,
                                    Seq<char>,
                                >(e@));
                                return Err(e);
                            },
                        },
                    }
                    i = i + 1;
                }
                assert(all.skip(i as int) =~= Seq::<Seq<char>>::empty());
                Ok(line)
            },
            _ => {
                let mut e = Vec::new();
                push_str(&mut e, "JSON field 'args' must be an object");
                Err(e)
            },
        },
    }
}


// ---------------------------------------------------------------------------
// What the library writes as a JSON string, the parser reads back
// ---------------------------------------------------------------------------

proof fn lemma_hex_digit_value(d: nat)
    requires
        d < 16,
    ensures
        digit_value(hex_digit_char(d), 16) == Some(d as u32),
{
    vstd::utf8::char_u32_cast(hex_digit_char(d), (hex_digit_char(d) as u32));
}


proof fn lemma_unicode_hex4(t: Seq<char>, i: int, v: u32)
    requires
        v < 0x10000,
        0 <= i,
        i + 4 <= t.len(),
        t.subrange(i, i + 4) == hex4(v),
    ensures
        unicode_digits(t, i, 0, 0) == Ok::<(u32, int), Seq<char>>((v, i + 4)),
{
    let d3 = (v / 4096 % 16) as nat;
    let d2 = (v / 256 % 16) as nat;
    let d1 = (v / 16 % 16) as nat;
    let d0 = (v % 16) as nat;
    assert(t[i] == hex4(v)[0]);
    assert(t[i + 1] == hex4(v)[1]);
    assert(t[i + 2] == hex4(v)[2]);
    assert(t[i + 3] == hex4(v)[3]);
    lemma_hex_digit_value(d3);
    lemma_hex_digit_value(d2);
    lemma_hex_digit_value(d1);
    lemma_hex_digit_value(d0);
    assert(((d3 * 16 + d2) * 16 + d1) * 16 + d0 == v);
    let c1 = d3 as u32;
    let c2 = (c1 * 16 + d2) as u32;
    let c3 = (c2 * 16 + d1) as u32;
    let c4 = (c3 * 16 + d0) as u32;
    assert(unicode_digits(t, i + 4, 4, c4) == Ok::<(u32, int), Seq<char>>((c4, i + 4)));
    assert(unicode_digits(t, i + 3, 3, c3) == unicode_digits(t, i + 4, 4, c4));
    assert(unicode_digits(t, i + 2, 2, c2) == unicode_digits(t, i + 3, 3, c3));
    assert(unicode_digits(t, i + 1, 1, c1) == unicode_digits(t, i + 2, 2, c2));
    assert(unicode_digits(t, i, 0, 0) == unicode_digits(t, i + 1, 1, c1));
}

/// Reading the escaped form of one char gives back that char.
proof fn lemma_escape_char_read(t: Seq<char>, i: int, c: char, acc: Seq<char>)
    requires
        0 <= i,
        i + escape_char(c).len() <= t.len(),
        t.subrange(i, i + escape_char(c).len()) == escape_char(c),
    ensures
        string_body(t, i, acc) == string_body(t, i + escape_char(c).len(), acc.push(c)),
{
    let e = escape_char(c);
    assert(t[i] == e[0]);
    if e.len() >= 2 {
        assert(t[i + 1] == e[1]);
    }
    if c != '"' && c != '\\' && c != '\n' && c != '\r' && c != '\t' && is_control_char(c) {
        let code = c as u32;
        assert(t.subrange(i + 2, i + 6) == hex4(code)) by {
            assert(t.subrange(i + 2, i + 6) =~= e.subrange(2, 6));
            assert(e.subrange(2, 6) =~= hex4(code));
        }
        lemma_unicode_hex4(t, i + 2, code);
        vstd::utf8::char_u32_cast(c, code);
        assert(escape_at(t, i + 1) == Ok::<(char, int), Seq<char>>((c, i + 6)));
    }
}

/// `json_escaped` read from the front: the first char's escape, then the rest.
proof fn lemma_json_escaped_first(s: Seq<char>)
    requires
        s.len() > 0,
    ensures
        json_escaped(s) == escape_char(s[0]) + json_escaped(s.drop_first()),
    decreases s.len(),
{
    if s.len() == 1 {
        assert(s.drop_last() =~= Seq::<char>::empty());
        assert(s.drop_first() =~= Seq::<char>::empty());
        assert(json_escaped(s) =~= escape_char(s[0]) + json_escaped(s.drop_first()));
    } else {
        lemma_json_escaped_first(s.drop_last());
        assert(s.drop_last().drop_first() =~= s.drop_first().drop_last());
        assert(s.drop_first().last() == s.last());
        assert(json_escaped(s) =~= escape_char(s[0]) + json_escaped(s.drop_first()));
    }
}

/// Reading the escaped form of a text gives back that text.
proof fn lemma_escaped_read(t: Seq<char>, i: int, s: Seq<char>, acc: Seq<char>)
    requires
        0 <= i,
        i + json_escaped(s).len() <= t.len(),
        t.subrange(i, i + json_escaped(s).len()) == json_escaped(s),
    ensures
        string_body(t, i, acc) == string_body(t, i + json_escaped(s).len(), acc + s),
    decreases s.len(),
{
    if s.len() == 0 {
        assert(acc + s =~= acc);
    } else {
        lemma_json_escaped_first(s);
        let e = escape_char(s[0]);
        let rest = s.drop_first();
        let k = e.len() as int;
        assert(t.subrange(i, i + k) =~= e) by {
            assert(t.subrange(i, i + k) =~= json_escaped(s).subrange(0, k));
        }
        lemma_escape_char_read(t, i, s[0], acc);
        assert(t.subrange(i + k, i + k + json_escaped(rest).len()) =~= json_escaped(rest)) by {
            assert(t.subrange(i + k, i + k + json_escaped(rest).len()) =~= json_escaped(s).subrange(
                k,
                json_escaped(s).len() as int,
            ));
        }
        lemma_escaped_read(t, i + k, rest, acc.push(s[0]));
        assert(acc.push(s[0]) + rest =~= acc + s);
    }
}

/// A JSON string that the library writes for a text is read back by the parser as that
/// same text, and the read ends after its closing quote.
pub proof fn lemma_string_json_read_back(s: Seq<char>)
    ensures
        string_at(string_json_text(s), 0) == Ok::<(Seq<char>, int), Seq<char>>(
            (s, string_json_text(s).len() as int),
        ),
{
    let t = string_json_text(s);
    let n = json_escaped(s).len() as int;
    assert(t.subrange(1, 1 + n) =~= json_escaped(s));
    lemma_escaped_read(t, 1, s, Seq::empty());
    assert(Seq::<char>::empty() + s =~= s);
    assert(t[1 + n] == '"');
}


/// A request body `{"line":..}` whose value is the JSON string that the library writes for
/// a text gives back that text as the command line.
pub proof fn lemma_line_request_read_back(s: Seq<char>)
    ensures
        spec_command_line_from_body("{\"line\":"@ + string_json_text(s) + "}"@) == Ok::<
            Seq<char>,
            Seq<char>,
        >(s),
{
    reveal_strlit("{\"line\":");
    reveal_strlit("}");
    reveal_strlit("line");
    let head = "{\"line\":"@;
    let t = string_json_text(s);
    let b = head + t + "}"@;
    let n = json_escaped(s).len() as int;
    assert(head.len() == 8);
    assert(t.len() == n + 2);
    assert(b.len() == n + 11);
    // The body has no whitespace at either end.
    assert(b[0] == '{');
    assert(b[b.len() - 1] == '}');
    assert(trim_start(b) == b);
    assert(trim_end(b) == b);
    // The key.
    assert(json_escaped("line"@) =~= "line"@) by {
        reveal_with_fuel(json_escaped, 5);
    }
    assert(b.subrange(2, 6) =~= json_escaped("line"@));
    lemma_escaped_read(b, 2, "line"@, Seq::empty());
    assert(Seq::<char>::empty() + "line"@ =~= "line"@);
    assert(b[1] == '"' && b[6] == '"' && b[7] == ':');
    assert(string_at(b, 1) == Ok::<(Seq<char>, int), Seq<char>>(("line"@, 7)));
    // The value.
    assert(b.subrange(9, 9 + n) =~= json_escaped(s));
    lemma_escaped_read(b, 9, s, Seq::empty());
    assert(Seq::<char>::empty() + s =~= s);
    assert(b[8] == '"' && b[9 + n] == '"' && b[10 + n] == '}');
    assert(string_at(b, 8) == Ok::<(Seq<char>, int), Seq<char>>((s, 10 + n)));
    assert(value_at(b, 8) == Ok::<(JsonData, int), Seq<char>>((JsonData::Text(s), 10 + n)));
    let ms = seq![("line"@, JsonData::Text(s))];
    assert(members_at(b, 1, Seq::empty()) == Ok::<(JsonData, int), Seq<char>>(
        (JsonData::Object(ms), 11 + n),
    )) by {
        assert(Seq::<(Seq<char>, JsonData)>::empty().push(("line"@, JsonData::Text(s))) =~= ms);
    }
    assert(value_at(b, 0) == Ok::<(JsonData, int), Seq<char>>((JsonData::Object(ms), 11 + n)));
    assert(ms.drop_last() =~= Seq::<(Seq<char>, JsonData)>::empty());
    assert(member(ms, "line"@) == Some(JsonData::Text(s)));
}


/// A name has a member exactly when some member has that name.
proof fn lemma_member_some_iff_key(ms: Seq<(Seq<char>, JsonData)>, k: Seq<char>)
    ensures
        member(ms, k) is Some <==> member_keys(ms).contains(k),
    decreases ms.len(),
{
    if ms.len() > 0 {
        let d = ms.drop_last();
        lemma_member_some_iff_key(d, k);
        if member_keys(d).contains(k) {
            let i = choose|i: int| 0 <= i < d.len() && #[trigger] d[i].0 == k;
            assert(ms[i].0 == k);
        }
        if member_keys(ms).contains(k) && ms.last().0 != k {
            let i = choose|i: int| 0 <= i < ms.len() && #[trigger] ms[i].0 == k;
            assert(i < ms.len() - 1);
            assert(d[i].0 == k);
        }
        if ms.last().0 == k {
            assert(ms[ms.len() - 1].0 == k);
        }
    }
}

proof fn lemma_append_args_same_members(
    line: Seq<char>,
    am1: Seq<(Seq<char>, JsonData)>,
    am2: Seq<(Seq<char>, JsonData)>,
    keys: Seq<Seq<char>>,
)
    requires
        forall|k: Seq<char>| #[trigger] member(am1, k) == member(am2, k),
    ensures
        append_args(line, am1, keys) == append_args(line, am2, keys),
    decreases keys.len(),
{
    if keys.len() > 0 {
        assert(member(am1, keys[0]) == member(am2, keys[0]));
        match member(am1, keys[0]) {
            None => lemma_append_args_same_members(line, am1, am2, keys.drop_first()),
            Some(v) => match arg_text(v) {
                Err(_) => {},
                Ok(t) => lemma_append_args_same_members(
                    line + " --"@ + keys[0] + " "@ + t,
                    am1,
                    am2,
                    keys.drop_first(),
                ),
            },
        }
    }
}

/// The order in which the members of `args` are written does not matter: two `args`
/// objects that give the same value under every name give the same command line.
pub proof fn lemma_args_order_irrelevant(
    ms1: Seq<(Seq<char>, JsonData)>,
    ms2: Seq<(Seq<char>, JsonData)>,
    am1: Seq<(Seq<char>, JsonData)>,
    am2: Seq<(Seq<char>, JsonData)>,
)
    requires
        member(ms1, "line"@) == member(ms2, "line"@),
        member(ms1, "command"@) == member(ms2, "command"@),
        member(ms1, "args"@) == Some(JsonData::Object(am1)),
        member(ms2, "args"@) == Some(JsonData::Object(am2)),
        forall|k: Seq<char>| #[trigger] member(am1, k) == member(am2, k),
    ensures
        line_from_members(ms1) == line_from_members(ms2),
{
    assert(member_keys(am1) =~= member_keys(am2)) by {
        assert forall|k: Seq<char>| member_keys(am1).contains(k) == member_keys(am2).contains(k) by {
            lemma_member_some_iff_key(am1, k);
            lemma_member_some_iff_key(am2, k);
            assert(member(am1, k) == member(am2, k));
        }
    }
    let keys = sorted_of(member_keys(am1));
    match member(ms1, "command"@) {
        Some(JsonData::Text(command)) => {
            lemma_append_args_same_members(command, am1, am2, keys);
        },
        _ => {},
    }
}

// ---------------------------------------------------------------------------
// Flat objects of numbers that the library writes, read back
// ---------------------------------------------------------------------------

/// Number text as the library writes it: an optional `-`, then at least one digit.
pub open spec fn plain_number(v: Seq<char>) -> bool {
    &&& v.len() >= 1
    &&& forall|k: int| 1 <= k < v.len() ==> '0' <= #[trigger] v[k] && v[k] <= '9'
    &&& (('0' <= v[0] && v[0] <= '9') || (v[0] == '-' && v.len() >= 2))
}

/// One member `"key":value`.
pub open spec fn number_member_text(p: (Seq<char>, Seq<char>)) -> Seq<char> {
    string_json_text(p.0) + seq![':'] + p.1
}

/// The members, separated by commas.
pub open spec fn number_members_text(ps: Seq<(Seq<char>, Seq<char>)>) -> Seq<char>
    decreases ps.len(),
{
    if ps.len() == 0 {
        Seq::empty()
    } else if ps.len() == 1 {
        number_member_text(ps[0])
    } else {
        number_member_text(ps[0]) + seq![','] + number_members_text(ps.drop_first())
    }
}

/// An object whose members are the given names with the given number texts.
pub open spec fn number_object_text(ps: Seq<(Seq<char>, Seq<char>)>) -> Seq<char> {
    seq!['{'] + number_members_text(ps) + seq!['}']
}

/// The members as the parser reads them.
pub open spec fn number_members(ps: Seq<(Seq<char>, Seq<char>)>) -> Seq<(Seq<char>, JsonData)> {
    ps.map_values(|p: (Seq<char>, Seq<char>)| (p.0, JsonData::Number(p.1)))
}

proof fn lemma_digits_run(t: Seq<char>, i: int, n: int)
    requires
        0 <= i,
        0 <= n,
        i + n <= t.len(),
        forall|k: int| i <= k < i + n ==> '0' <= #[trigger] t[k] && t[k] <= '9',
        i + n == t.len() || !('0' <= t[i + n] && t[i + n] <= '9'),
    ensures
        digits_end(t, i) == i + n,
    decreases n,
{
    if n > 0 {
        lemma_digits_run(t, i + 1, n - 1);
    }
}

/// Number text followed by `,` or `}` is read as a number that ends right there.
proof fn lemma_number_at_plain(t: Seq<char>, j: int, v: Seq<char>)
    requires
        0 <= j,
        j + v.len() < t.len(),
        t.subrange(j, j + v.len()) == v,
        plain_number(v),
        t[j + v.len()] == ',' || t[j + v.len()] == '}',
    ensures
        number_at(t, j) == Ok::<(Seq<char>, int), Seq<char>>((v, j + v.len())),
{
    let e = j + v.len();
    assert forall|k: int| j + 1 <= k < e implies '0' <= #[trigger] t[k] && t[k] <= '9' by {
        assert(t[k] == v[k - j]);
    }
    assert(t[j] == v[0]);
    if v[0] == '-' {
        lemma_digits_run(t, j + 1, v.len() - 1);
    } else {
        lemma_digits_run(t, j, v.len() as int);
    }
    assert(number_end(t, j) == e);
}

/// Reading the members that the library writes gives them back, in order, and stops
/// after the closing brace.
proof fn lemma_number_members_read(
    t: Seq<char>,
    i: int,
    ps: Seq<(Seq<char>, Seq<char>)>,
    acc: Seq<(Seq<char>, JsonData)>,
)
    requires
        ps.len() >= 1,
        0 <= i,
        i + number_members_text(ps).len() < t.len(),
        t.subrange(i, i + number_members_text(ps).len()) == number_members_text(ps),
        t[i + number_members_text(ps).len()] == '}',
        forall|k: int| 0 <= k < ps.len() ==> plain_number(#[trigger] ps[k].1),
    ensures
        members_at(t, i, acc) == Ok::<(JsonData, int), Seq<char>>(
            (JsonData::Object(acc + number_members(ps)), i + number_members_text(ps).len() + 1),
        ),
    decreases ps.len(),
{
    let mt = number_members_text(ps);
    let p = ps[0];
    let key = p.0;
    let v = p.1;
    let m = number_member_text(p);
    let n = json_escaped(key).len() as int;
    assert(plain_number(ps[0].1));
    assert(mt.subrange(0, m.len() as int) =~= m);
    assert(t.subrange(i, i + m.len()) =~= m) by {
        assert(t.subrange(i, i + m.len()) =~= mt.subrange(0, m.len() as int));
    }
    assert(m.len() == n + 3 + v.len());
    assert(t[i] == '"') by {
        assert(t[i] == m[0]);
    }
    assert(t.subrange(i + 1, i + 1 + n) =~= json_escaped(key)) by {
        assert(t.subrange(i + 1, i + 1 + n) =~= m.subrange(1, 1 + n));
    }
    lemma_escaped_read(t, i + 1, key, Seq::empty());
    assert(Seq::<char>::empty() + key =~= key);
    assert(t[i + 1 + n] == '"') by {
        assert(t[i + 1 + n] == m[1 + n]);
    }
    assert(string_at(t, i) == Ok::<(Seq<char>, int), Seq<char>>((key, i + 2 + n)));
    let b = i + 2 + n;
    assert(t[b] == ':') by {
        assert(t[b] == m[2 + n]);
    }
    let d = b + 1;
    assert(t.subrange(d, d + v.len()) =~= v) by {
        assert(t.subrange(d, d + v.len()) =~= m.subrange(3 + n, m.len() as int));
    }
    let e = d + v.len();
    assert(e == i + m.len());
    assert(t[d] == v[0]);
    if ps.len() == 1 {
        assert(mt == m);
        lemma_number_at_plain(t, d, v);
        assert(value_at(t, d) == Ok::<(JsonData, int), Seq<char>>((JsonData::Number(v), e)));
        assert(acc.push((key, JsonData::Number(v))) =~= acc + number_members(ps));
    } else {
        let rest = ps.drop_first();
        let rt = number_members_text(rest);
        assert(mt == m + seq![','] + rt);
        assert(t[e] == ',') by {
            assert(t[e] == mt[m.len() as int]);
        }
        lemma_number_at_plain(t, d, v);
        assert(value_at(t, d) == Ok::<(JsonData, int), Seq<char>>((JsonData::Number(v), e)));
        let g = e + 1;
        assert(t.subrange(g, g + rt.len()) =~= rt) by {
            assert(t.subrange(g, g + rt.len()) =~= mt.subrange(m.len() as int + 1, mt.len() as int));
        }
        assert(g + rt.len() == i + mt.len());
        assert forall|k: int| 0 <= k < rest.len() implies plain_number(#[trigger] rest[k].1) by {
            assert(rest[k] == ps[k + 1]);
        }
        let acc2 = acc.push((key, JsonData::Number(v)));
        lemma_number_members_read(t, g, rest, acc2);
        assert(acc2 + number_members(rest) =~= acc + number_members(ps));
    }
}

/// The members text grows at its end: one more member adds a comma and that member.
pub proof fn lemma_number_members_text_snoc(ps: Seq<(Seq<char>, Seq<char>)>)
    requires
        ps.len() >= 2,
    ensures
        number_members_text(ps) == number_members_text(ps.drop_last()) + seq![',']
            + number_member_text(ps.last()),
    decreases ps.len(),
{
    if ps.len() == 2 {
        assert(ps.drop_last().len() == 1);
        assert(ps.drop_first().len() == 1);
        assert(number_members_text(ps.drop_first()) == number_member_text(ps[1]));
        assert(number_members_text(ps) =~= number_members_text(ps.drop_last()) + seq![',']
            + number_member_text(ps.last()));
    } else {
        let r = ps.drop_first();
        lemma_number_members_text_snoc(r);
        assert(r.drop_last() =~= ps.drop_last().drop_first());
        assert(r.last() == ps.last());
        assert(ps.drop_last()[0] == ps[0]);
        assert(number_members_text(ps.drop_last()) == number_member_text(ps[0]) + seq![',']
            + number_members_text(ps.drop_last().drop_first()));
        assert(number_members_text(ps) =~= number_members_text(ps.drop_last()) + seq![',']
            + number_member_text(ps.last()));
    }
}

/// An object of numbers that the library writes is read back by the parser as an object
/// with the same members, in the same order, and the read takes the whole text.
pub proof fn lemma_number_object_read_back(ps: Seq<(Seq<char>, Seq<char>)>)
    requires
        ps.len() >= 1,
        forall|k: int| 0 <= k < ps.len() ==> plain_number(#[trigger] ps[k].1),
    ensures
        value_at(number_object_text(ps), 0) == Ok::<(JsonData, int), Seq<char>>(
            (JsonData::Object(number_members(ps)), number_object_text(ps).len() as int),
        ),
{
    let t = number_object_text(ps);
    let mt = number_members_text(ps);
    assert(t.subrange(1, 1 + mt.len() as int) =~= mt);
    assert(ps[0] == ps[0]);
    assert(mt.len() >= 1 && mt[0] == '"') by {
        if ps.len() == 1 {
            assert(mt == number_member_text(ps[0]));
        } else {
            assert(mt == number_member_text(ps[0]) + seq![','] + number_members_text(
                ps.drop_first(),
            ));
        }
    }
    lemma_number_members_read(t, 1, ps, Seq::empty());
    assert(Seq::<(Seq<char>, JsonData)>::empty() + number_members(ps) =~= number_members(ps));
}

/// The decimal digits of a number are digits, at least one of them.
pub proof fn lemma_dec_nat_digits(n: nat)
    ensures
        dec_nat(n).len() >= 1,
        forall|k: int| 0 <= k < dec_nat(n).len() ==> '0' <= #[trigger] dec_nat(n)[k] && dec_nat(n)[k] <= '9',
    decreases n,
{
    if n >= 10 {
        lemma_dec_nat_digits(n / 10);
    }
}

/// The decimal text of an integer is number text.
pub proof fn lemma_dec_int_plain(x: int)
    ensures
        plain_number(dec_int(x)),
{
    if x < 0 {
        lemma_dec_nat_digits((-x) as nat);
        let d = dec_nat((-x) as nat);
        assert forall|k: int| 1 <= k < dec_int(x).len() implies '0' <= #[trigger] dec_int(x)[k] && dec_int(x)[k] <= '9' by {
            assert(dec_int(x)[k] == d[k - 1]);
        }
    } else {
        lemma_dec_nat_digits(x as nat);
    }
}

} // verus!
