use vstd::prelude::*;

verus! {

// ---------------------------------------------------------------------------
// Conversions between `str`/`String` and char sequences
// ---------------------------------------------------------------------------

/// The chars of `s`, in order.
pub fn chars_of(s: &str) -> (chars: Vec<char>)
    ensures
        chars@ == s@,
{
    let mut chars: Vec<char> = Vec::new();
    for c in it: s.chars()
        invariant
            chars@ == it.seq().take(it.index() as int),
            it.seq() == s@,
    {
        chars.push(c);
    }
    chars
}

/// Calls `String::push`, which appends one char to the string.
#[verifier::external_body]
fn string_push(s: &mut String, c: char)
    ensures
        final(s)@ == old(s)@.push(c),
{
    s.push(c);
}

/// A `String` made of `chars`.
pub fn string_from(chars: &[char]) -> (s: String)
    ensures
        s@ == chars@,
{
    let mut s = String::new();
    let mut i: usize = 0;
    while i < chars.len()
        invariant
            i <= chars@.len(),
            s@ == chars@.take(i as int),
        decreases chars@.len() - i,
    {
        string_push(&mut s, chars[i]);
        i = i + 1;
        assert(s@ =~= chars@.take(i as int));
    }
    assert(chars@.take(i as int) =~= chars@);
    s
}

/// Appends `tail` to `out`.
pub fn push_chars(out: &mut Vec<char>, tail: &[char])
    ensures
        final(out)@ == old(out)@ + tail@,
{
    let mut i: usize = 0;
    while i < tail.len()
        invariant
            i <= tail@.len(),
            out@ == old(out)@ + tail@.take(i as int),
        decreases tail@.len() - i,
    {
        out.push(tail[i]);
        i = i + 1;
        assert(out@ =~= old(out)@ + tail@.take(i as int));
    }
    assert(tail@.take(i as int) =~= tail@);
}

/// Appends the chars of `tail` to `out`.
pub fn push_str(out: &mut Vec<char>, tail: &str)
    ensures
        final(out)@ == old(out)@ + tail@,
{
    let chars = chars_of(tail);
    push_chars(out, chars.as_slice());
}

/// Whether two char sequences are equal.
pub fn chars_eq(a: &[char], b: &[char]) -> (eq: bool)
    ensures
        eq == (a@ == b@),
{
    if a.len() != b.len() {
        return false;
    }
    let mut i: usize = 0;
    while i < a.len()
        invariant
            a@.len() == b@.len(),
            i <= a@.len(),
            forall|j: int| 0 <= j < i ==> a@[j] == b@[j],
        decreases a@.len() - i,
    {
        if a[i] != b[i] {
            return false;
        }
        i = i + 1;
    }
    assert(a@ =~= b@);
    true
}

/// Whether the chars equal those of the string.
pub fn chars_eq_str(a: &[char], b: &str) -> (eq: bool)
    ensures
        eq == (a@ == b@),
{
    let b = chars_of(b);
    chars_eq(a, b.as_slice())
}

/// Whether `s` starts with `prefix`.
pub open spec fn starts_with(s: Seq<char>, prefix: Seq<char>) -> bool {
    prefix.len() <= s.len() && s.take(prefix.len() as int) == prefix
}

pub fn chars_start_with(s: &[char], prefix: &str) -> (yes: bool)
    ensures
        yes == starts_with(s@, prefix@),
{
    let p = chars_of(prefix);
    if p.len() > s.len() {
        return false;
    }
    let mut i: usize = 0;
    while i < p.len()
        invariant
            p@ == prefix@,
            p@.len() <= s@.len(),
            i <= p@.len(),
            forall|j: int| 0 <= j < i ==> s@[j] == p@[j],
        decreases p@.len() - i,
    {
        if s[i] != p[i] {
            return false;
        }
        i = i + 1;
    }
    assert(s@.take(p@.len() as int) =~= p@);
    true
}

/// The chars of `s` from index `from` on.
pub fn chars_skip(s: &[char], from: usize) -> (rest: Vec<char>)
    requires
        from <= s@.len(),
    ensures
        rest@ == s@.skip(from as int),
{
    let mut rest = Vec::new();
    let mut i = from;
    while i < s.len()
        invariant
            from <= i <= s@.len(),
            rest@ == s@.subrange(from as int, i as int),
        decreases s@.len() - i,
    {
        rest.push(s[i]);
        i = i + 1;
        assert(rest@ =~= s@.subrange(from as int, i as int));
    }
    assert(s@.skip(from as int) =~= s@.subrange(from as int, i as int));
    rest
}

/// The chars of `s` in `[from, to)`.
pub fn chars_range(s: &[char], from: usize, to: usize) -> (part: Vec<char>)
    requires
        from <= to <= s@.len(),
    ensures
        part@ == s@.subrange(from as int, to as int),
{
    let mut part = Vec::new();
    let mut i = from;
    while i < to
        invariant
            from <= i <= to,
            to <= s@.len(),
            part@ == s@.subrange(from as int, i as int),
        decreases to - i,
    {
        part.push(s[i]);
        i = i + 1;
        assert(part@ =~= s@.subrange(from as int, i as int));
    }
    part
}

// ---------------------------------------------------------------------------
// Character classes
// ---------------------------------------------------------------------------

/// The Unicode `White_Space` property, which `char::is_whitespace` tests.
pub open spec fn is_whitespace_char(c: char) -> bool {
    ||| ('\u{0009}' <= c && c <= '\u{000D}')
    ||| c == ' '
    ||| c == '\u{0085}'
    ||| c == '\u{00A0}'
    ||| c == '\u{1680}'
    ||| ('\u{2000}' <= c && c <= '\u{200A}')
    ||| c == '\u{2028}'
    ||| c == '\u{2029}'
    ||| c == '\u{202F}'
    ||| c == '\u{205F}'
    ||| c == '\u{3000}'
}

pub fn is_whitespace(c: char) -> (yes: bool)
    ensures
        yes == is_whitespace_char(c),
{
    ('\u{0009}' <= c && c <= '\u{000D}') || c == ' ' || c == '\u{0085}' || c == '\u{00A0}' || c
        == '\u{1680}' || ('\u{2000}' <= c && c <= '\u{200A}') || c == '\u{2028}' || c == '\u{2029}'
        || c == '\u{202F}' || c == '\u{205F}' || c == '\u{3000}'
}

/// The general category `Cc`, which `char::is_control` tests.
pub open spec fn is_control_char(c: char) -> bool {
    c <= '\u{001F}' || ('\u{007F}' <= c && c <= '\u{009F}')
}

pub fn is_control(c: char) -> (yes: bool)
    ensures
        yes == is_control_char(c),
{
    c <= '\u{001F}' || ('\u{007F}' <= c && c <= '\u{009F}')
}

/// The value of `c` as a digit in base 10 or 16, as `char::to_digit` gives it.
pub open spec fn digit_value(c: char, radix: u32) -> Option<u32> {
    if '0' <= c && c <= '9' && (c as u32) - ('0' as u32) < radix {
        Some(((c as u32) - ('0' as u32)) as u32)
    } else if radix == 16 && 'a' <= c && c <= 'f' {
        Some(((c as u32) - ('a' as u32) + 10) as u32)
    } else if radix == 16 && 'A' <= c && c <= 'F' {
        Some(((c as u32) - ('A' as u32) + 10) as u32)
    } else {
        None
    }
}

pub fn to_digit(c: char, radix: u32) -> (d: Option<u32>)
    requires
        radix == 10 || radix == 16,
    ensures
        d == digit_value(c, radix),
{
    if '0' <= c && c <= '9' {
        Some((c as u32) - ('0' as u32))
    } else if radix == 16 && 'a' <= c && c <= 'f' {
        Some((c as u32) - ('a' as u32) + 10)
    } else if radix == 16 && 'A' <= c && c <= 'F' {
        Some((c as u32) - ('A' as u32) + 10)
    } else {
        None
    }
}

/// The chars that `char::to_lowercase` yields for `c`.
pub uninterp spec fn lowercase_chars(c: char) -> Seq<char>;

/// Calls `char::to_lowercase` and keeps every char that it yields, in order.
#[verifier::external_body]
fn char_to_lowercase(c: char) -> (lower: Vec<char>)
    ensures
        lower@ == lowercase_chars(c),
{
    c.to_lowercase().collect()
}

/// What `char::to_lowercase` yields: for an ASCII char its ASCII lowercase, for any other
/// char the Unicode mapping.
pub open spec fn lowercase_of(c: char) -> Seq<char> {
    if 'A' <= c && c <= 'Z' {
        seq![((c as u32) + 32) as char]
    } else if c <= '\u{007F}' {
        seq![c]
    } else {
        lowercase_chars(c)
    }
}

fn push_lowercase(out: &mut Vec<char>, c: char)
    ensures
        final(out)@ == old(out)@ + lowercase_of(c),
{
    if 'A' <= c && c <= 'Z' {
        out.push(((c as u8) + 32) as char);
        assert(final(out)@ =~= old(out)@ + lowercase_of(c));
    } else if c <= '\u{007F}' {
        out.push(c);
        assert(final(out)@ =~= old(out)@ + lowercase_of(c));
    } else {
        let lower = char_to_lowercase(c);
        push_chars(out, lower.as_slice());
    }
}

/// A name with `-` and `_` left out and every other char lowercased.
pub open spec fn normalized(s: Seq<char>) -> Seq<char>
    decreases s.len(),
{
    if s.len() == 0 {
        Seq::empty()
    } else if s.last() == '-' || s.last() == '_' {
        normalized(s.drop_last())
    } else {
        normalized(s.drop_last()) + lowercase_of(s.last())
    }
}

pub fn normalize_name(value: &[char]) -> (name: Vec<char>)
    ensures
        name@ == normalized(value@),
{
    let mut name = Vec::new();
    let mut i: usize = 0;
    while i < value.len()
        invariant
            i <= value@.len(),
            name@ == normalized(value@.take(i as int)),
        decreases value@.len() - i,
    {
        let c = value[i];
        assert(value@.take(i + 1).drop_last() =~= value@.take(i as int));
        if c != '-' && c != '_' {
            push_lowercase(&mut name, c);
        }
        i = i + 1;
    }
    assert(value@.take(i as int) =~= value@);
    name
}

// ---------------------------------------------------------------------------
// Decimal and hexadecimal text of numbers
// ---------------------------------------------------------------------------

/// The decimal digit for `d`.
pub open spec fn digit_char(d: nat) -> char {
    ('0' as u32 + d) as char
}

/// Decimal text of a natural number, without leading zeros.
pub open spec fn dec_nat(n: nat) -> Seq<char>
    decreases n,
{
    if n < 10 {
        seq![digit_char(n)]
    } else {
        dec_nat(n / 10).push(digit_char(n % 10))
    }
}

/// Decimal text of an integer, with a leading `-` when negative.
pub open spec fn dec_int(i: int) -> Seq<char> {
    if i < 0 {
        seq!['-'] + dec_nat((-i) as nat)
    } else {
        dec_nat(i as nat)
    }
}

fn digit(d: u64) -> (c: char)
    requires
        d < 10,
    ensures
        c == digit_char(d as nat),
{
    if d == 0 {
        '0'
    } else if d == 1 {
        '1'
    } else if d == 2 {
        '2'
    } else if d == 3 {
        '3'
    } else if d == 4 {
        '4'
    } else if d == 5 {
        '5'
    } else if d == 6 {
        '6'
    } else if d == 7 {
        '7'
    } else if d == 8 {
        '8'
    } else {
        '9'
    }
}

/// Appends the decimal text of `n`.
pub fn push_dec_u64(out: &mut Vec<char>, n: u64)
    ensures
        final(out)@ == old(out)@ + dec_nat(n as nat),
    decreases n,
{
    if n >= 10 {
        push_dec_u64(out, n / 10);
    }
    out.push(digit(n % 10));
    assert(final(out)@ =~= old(out)@ + dec_nat(n as nat));
}

/// Appends the decimal text of `i`.
pub fn push_dec_i128(out: &mut Vec<char>, i: i128)
    requires
        -0x1_0000_0000_0000_0000 < i < 0x1_0000_0000_0000_0000,
    ensures
        final(out)@ == old(out)@ + dec_int(i as int),
{
    if i < 0 {
        out.push('-');
        push_dec_u64(out, (-i) as u64);
    } else {
        push_dec_u64(out, i as u64);
    }
    assert(final(out)@ =~= old(out)@ + dec_int(i as int));
}

/// Lowercase hexadecimal digit for `d`.
pub open spec fn hex_digit_char(d: nat) -> char {
    if d < 10 {
        ('0' as u32 + d) as char
    } else {
        ('a' as u32 + d - 10) as char
    }
}

/// Two lowercase hexadecimal digits of a byte.
pub open spec fn hex2(b: u8) -> Seq<char> {
    seq![hex_digit_char((b / 16) as nat), hex_digit_char((b % 16) as nat)]
}

fn hex_digit(d: u8) -> (c: char)
    requires
        d < 16,
    ensures
        c == hex_digit_char(d as nat),
{
    if d < 10 {
        ((('0' as u8) + d) as char)
    } else {
        ((('a' as u8) + d - 10) as char)
    }
}

/// Appends two lowercase hexadecimal digits of `b`.
pub fn push_hex2(out: &mut Vec<char>, b: u8)
    ensures
        final(out)@ == old(out)@ + hex2(b),
{
    out.push(hex_digit(b / 16));
    out.push(hex_digit(b % 16));
    assert(final(out)@ =~= old(out)@ + hex2(b));
}


// ---------------------------------------------------------------------------
// Splitting into runs
// ---------------------------------------------------------------------------

/// The views of a vector of char vectors.
pub open spec fn views(v: Seq<Vec<char>>) -> Seq<Seq<char>> {
    v.map_values(|t: Vec<char>| t@)
}

/// Separators: whitespace for kind 0, `,` and `:` otherwise.
pub open spec fn is_separator(kind: u8, c: char) -> bool {
    if kind == 0 {
        is_whitespace_char(c)
    } else {
        c == ',' || c == ':'
    }
}

/// The non-empty runs of non-separator chars of `s`, the first of them continuing `cur`.
pub open spec fn runs_from(s: Seq<char>, kind: u8, cur: Seq<char>) -> Seq<Seq<char>>
    decreases s.len(),
{
    if s.len() == 0 {
        if cur.len() > 0 {
            seq![cur]
        } else {
            Seq::empty()
        }
    } else if is_separator(kind, s[0]) {
        (if cur.len() > 0 {
            seq![cur]
        } else {
            Seq::empty()
        }) + runs_from(s.drop_first(), kind, Seq::empty())
    } else {
        runs_from(s.drop_first(), kind, cur.push(s[0]))
    }
}

/// The non-empty runs of non-separator chars of `s`, in order.
pub open spec fn runs(s: Seq<char>, kind: u8) -> Seq<Seq<char>> {
    runs_from(s, kind, Seq::empty())
}

pub fn split_runs(s: &[char], kind: u8) -> (parts: Vec<Vec<char>>)
    ensures
        views(parts@) == runs(s@, kind),
{
    let mut parts: Vec<Vec<char>> = Vec::new();
    let mut cur: Vec<char> = Vec::new();
    let mut i: usize = 0;
    assert(s@.skip(0) =~= s@);
    while i < s.len()
        invariant
            i <= s@.len(),
            runs(s@, kind) == views(parts@) + runs_from(s@.skip(i as int), kind, cur@),
        decreases s@.len() - i,
    {
        let c = s[i];
        let ghost rest = s@.skip(i as int);
        assert(rest[0] == c);
        assert(rest.drop_first() =~= s@.skip(i + 1));
        let sep = if kind == 0 {
            is_whitespace(c)
        } else {
            c == ',' || c == ':'
        };
        if sep {
            if cur.len() > 0 {
                let ghost before = views(parts@);
                parts.push(cur);
                assert(views(parts@) =~= before + seq![cur@]);
            } else {
                assert(views(parts@) + Seq::<Seq<char>>::empty() =~= views(parts@));
            }
            cur = Vec::new();
            assert(runs(s@, kind) =~= views(parts@) + runs_from(s@.skip(i + 1), kind, cur@));
        } else {
            cur.push(c);
        }
        i = i + 1;
    }
    if cur.len() > 0 {
        let ghost before = views(parts@);
        parts.push(cur);
        assert(views(parts@) =~= before + seq![cur@]);
    } else {
        assert(views(parts@) + Seq::<Seq<char>>::empty() =~= views(parts@));
    }
    parts
}

/// `s` without its leading `--` pairs.
pub open spec fn trim_dashes(s: Seq<char>) -> Seq<char>
    decreases s.len(),
{
    if s.len() >= 2 && s[0] == '-' && s[1] == '-' {
        trim_dashes(s.skip(2))
    } else {
        s
    }
}

pub fn trim_leading_dashes(s: &[char]) -> (trimmed: Vec<char>)
    ensures
        trimmed@ == trim_dashes(s@),
{
    let mut i: usize = 0;
    assert(s@.skip(0) =~= s@);
    while s.len() - i >= 2 && s[i] == '-' && s[i + 1] == '-'
        invariant
            i <= s@.len(),
            trim_dashes(s@) == trim_dashes(s@.skip(i as int)),
        decreases s@.len() - i,
    {
        assert(s@.skip(i as int).skip(2) =~= s@.skip(i + 2));
        i = i + 2;
    }
    chars_skip(s, i)
}


/// `s` without its leading whitespace.
pub open spec fn trim_start(s: Seq<char>) -> Seq<char>
    decreases s.len(),
{
    if s.len() > 0 && is_whitespace_char(s[0]) {
        trim_start(s.drop_first())
    } else {
        s
    }
}

/// `s` without its trailing whitespace.
pub open spec fn trim_end(s: Seq<char>) -> Seq<char>
    decreases s.len(),
{
    if s.len() > 0 && is_whitespace_char(s.last()) {
        trim_end(s.drop_last())
    } else {
        s
    }
}

/// `s` without leading or trailing whitespace, as `str::trim` gives it.
pub open spec fn trim(s: Seq<char>) -> Seq<char> {
    trim_end(trim_start(s))
}

pub fn trim_chars(s: &[char]) -> (t: Vec<char>)
    ensures
        t@ == trim(s@),
{
    let mut a: usize = 0;
    assert(s@.skip(0) =~= s@);
    while a < s.len() && is_whitespace(s[a])
        invariant
            a <= s@.len(),
            trim_start(s@) == trim_start(s@.skip(a as int)),
        decreases s@.len() - a,
    {
        assert(s@.skip(a as int).drop_first() =~= s@.skip(a + 1));
        a = a + 1;
    }
    let mut b: usize = s.len();
    assert(s@.skip(a as int) =~= s@.subrange(a as int, b as int));
    while b > a && is_whitespace(s[b - 1])
        invariant
            a <= b <= s@.len(),
            trim(s@) == trim_end(s@.subrange(a as int, b as int)),
        decreases b,
    {
        assert(s@.subrange(a as int, b as int).drop_last() =~= s@.subrange(a as int, b - 1));
        b = b - 1;
    }
    chars_range(s, a, b)
}

/// The first `n` bytes of `s`.
pub fn bytes_prefix(s: &[u8], n: usize) -> (prefix: Vec<u8>)
    requires
        n <= s@.len(),
    ensures
        prefix@ == s@.take(n as int),
{
    let mut prefix = Vec::new();
    let mut i: usize = 0;
    while i < n
        invariant
            i <= n <= s@.len(),
            prefix@ == s@.take(i as int),
        decreases n - i,
    {
        prefix.push(s[i]);
        i = i + 1;
        assert(prefix@ =~= s@.take(i as int));
    }
    prefix
}

} // verus!
