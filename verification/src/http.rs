use vstd::prelude::*;

use crate::backend::{
    byte_list_text, format_byte_array, format_hex, format_version, hex_text, notify_command_id,
    notify_json, spec_notify_command_id, spec_notify_json, version_text,
};
use crate::cli::{lemma_request_line_frame_nonempty, parse_request_line, spec_parse_request_line};
use crate::commands::{CXN0102Notify, GetTemperatureNotify, GetVersionNotify};
use crate::json::{json_error, json_error_text, json_escape, json_escaped};
use crate::request_json::{command_line_from_body, spec_command_line_from_body};
use crate::text::{
    chars_eq_str, chars_of, dec_nat, push_chars, push_dec_u64, push_str, runs, split_runs,
    string_from, trim, trim_chars,
};

verus! {

/// The largest request body that is read.
pub const MAX_BODY_SIZE: usize = 1024 * 1024;

/// How many notifies are read while waiting for the one that answers a request.
pub const MAX_FILTERED_NOTIFY_READS: usize = 8;

// ---------------------------------------------------------------------------
// Responses
// ---------------------------------------------------------------------------

/// A response: its status, its body and the body's media type.
pub struct HttpResponse {
    pub status: u16,
    pub body: String,
    pub content_type: &'static str,
}

impl HttpResponse {
    pub fn json(status: u16, body: String) -> (r: HttpResponse)
        ensures
            r.status == status,
            r.body@ == body@,
            r.content_type@ == "application/json"@,
    {
        HttpResponse { status, body, content_type: "application/json" }
    }

    pub fn html(status: u16, body: String) -> (r: HttpResponse)
        ensures
            r.status == status,
            r.body@ == body@,
            r.content_type@ == "text/html; charset=utf-8"@,
    {
        HttpResponse { status, body, content_type: "text/html; charset=utf-8" }
    }
}

/// A JSON error response with `{"ok":false,"error":..}` for `message`.
pub fn error_response(status: u16, message: &[char]) -> (r: HttpResponse)
    ensures
        r.status == status,
        r.body@ == json_error_text(message@),
        r.content_type@ == "application/json"@,
{
    let body = json_error(message);
    HttpResponse::json(status, string_from(body.as_slice()))
}

fn error_response_str(status: u16, message: &str) -> (r: HttpResponse)
    ensures
        r.status == status,
        r.body@ == json_error_text(message@),
        r.content_type@ == "application/json"@,
{
    let message = chars_of(message);
    error_response(status, message.as_slice())
}

/// The answer to a health check.
pub fn health_response() -> (r: HttpResponse)
    ensures
        r.status == 200,
        r.body@ == "{\"status\":\"ok\"}"@,
        r.content_type@ == "application/json"@,
{
    let body = chars_of("{\"status\":\"ok\"}");
    HttpResponse::json(200, string_from(body.as_slice()))
}

/// The answer to a request for an unknown path.
pub fn not_found_response() -> (r: HttpResponse)
    ensures
        r.status == 404,
        r.body@ == json_error_text("not found"@),
        r.content_type@ == "application/json"@,
{
    error_response_str(404, "not found")
}

/// The answer to a command request made with `GET`.
pub fn method_not_allowed_response() -> (r: HttpResponse)
    ensures
        r.status == 405,
        r.body@ == json_error_text("use POST for command requests"@),
        r.content_type@ == "application/json"@,
{
    error_response_str(405, "use POST for command requests")
}

// ---------------------------------------------------------------------------
// Routing
// ---------------------------------------------------------------------------

/// What a request asks for.
#[derive(Debug, Clone, Copy, PartialEq, Eq, Structural)]
pub enum Route {
    Index,
    Health,
    Temperature,
    Version,
    Command,
    CommandNeedsPost,
    NotFound,
}

/// The route of a request with `method` for `path`.
pub open spec fn spec_route(method: Seq<char>, path: Seq<char>) -> Route {
    let command_path = path == "/command"@ || path == "/api/command"@;
    if method == "GET"@ && path == "/"@ {
        Route::Index
    } else if method == "GET"@ && path == "/health"@ {
        Route::Health
    } else if method == "GET"@ && path == "/api/temperature"@ {
        Route::Temperature
    } else if method == "GET"@ && path == "/api/version"@ {
        Route::Version
    } else if method == "POST"@ && command_path {
        Route::Command
    } else if method == "GET"@ && command_path {
        Route::CommandNeedsPost
    } else {
        Route::NotFound
    }
}

/// Decides what a request with `method` for `path` asks for.
pub fn route_request(method: &str, path: &str) -> (r: Route)
    ensures
        r == spec_route(method@, path@),
{
    let method = chars_of(method);
    let path = chars_of(path);
    let get = chars_eq_str(method.as_slice(), "GET");
    let post = chars_eq_str(method.as_slice(), "POST");
    let command_path = chars_eq_str(path.as_slice(), "/command") || chars_eq_str(
        path.as_slice(),
        "/api/command",
    );
    if get && chars_eq_str(path.as_slice(), "/") {
        Route::Index
    } else if get && chars_eq_str(path.as_slice(), "/health") {
        Route::Health
    } else if get && chars_eq_str(path.as_slice(), "/api/temperature") {
        Route::Temperature
    } else if get && chars_eq_str(path.as_slice(), "/api/version") {
        Route::Version
    } else if post && command_path {
        Route::Command
    } else if get && command_path {
        Route::CommandNeedsPost
    } else {
        Route::NotFound
    }
}

// ---------------------------------------------------------------------------
// Command requests
// ---------------------------------------------------------------------------

/// What `FromUtf8Error` displays for bytes that are not UTF-8.
pub uninterp spec fn utf8_error_text(bytes: Seq<u8>) -> Seq<char>;

/// Calls `String::from_utf8`, which takes `bytes` as text exactly when they are valid
/// UTF-8, and otherwise gives the error, shown here as the text that it displays.
#[verifier::external_body]
fn utf8_text(bytes: Vec<u8>) -> (r: Result<String, String>)
    ensures
        match r {
            Ok(text) => vstd::utf8::valid_utf8(bytes@) && text@ == vstd::utf8::decode_utf8(bytes@),
            Err(e) => !vstd::utf8::valid_utf8(bytes@) && e@ == utf8_error_text(bytes@),
        },
{
    match String::from_utf8(bytes) {
        Ok(text) => Ok(text),
        Err(error) => Err(format!("{error}")),
    }
}

/// The command line of a request body and the frame that it names, or the message of the
/// first thing that fails.
pub open spec fn spec_command_request(body: Seq<u8>) -> Result<(Seq<char>, Seq<u8>), Seq<char>> {
    if !vstd::utf8::valid_utf8(body) {
        Err("request body must be UTF-8: "@ + utf8_error_text(body))
    } else {
        match spec_command_line_from_body(vstd::utf8::decode_utf8(body)) {
            Err(e) => Err(e),
            Ok(line) => match spec_parse_request_line(line) {
                Err(e) => Err(e),
                Ok(None) => Err("request did not produce a command"@),
                Ok(Some(bytes)) => Ok((line, bytes)),
            },
        }
    }
}

/// Reads the command of a command request from its body: the command line and the frame
/// to send, or the `400` response that refuses it.
pub fn command_request(body: Vec<u8>) -> (r: Result<(String, Vec<u8>), HttpResponse>)
    ensures
        match r {
            Ok((line, bytes)) => spec_command_request(body@) == Ok::<
                (Seq<char>, Seq<u8>),
                Seq<char>,
            >((line@, bytes@)) && bytes@.len() >= 1,
            Err(response) => spec_command_request(body@) matches Err(e) && response.status == 400
                && response.body@ == json_error_text(e) && response.content_type@
                == "application/json"@,
        },
{
    let text = match utf8_text(body) {
        Ok(text) => text,
        Err(error) => {
            let mut message = Vec::new();
            push_str(&mut message, "request body must be UTF-8: ");
            push_str(&mut message, error.as_str());
            return Err(error_response(400, message.as_slice()));
        },
    };
    let line = match command_line_from_body(text.as_str()) {
        Ok(line) => line,
        Err(error) => {
            let message = chars_of(error.as_str());
            return Err(error_response(400, message.as_slice()));
        },
    };
    proof {
        lemma_request_line_frame_nonempty(line@);
    }
    match parse_request_line(line.as_str()) {
        Ok(Some(bytes)) => Ok((line, bytes)),
        Ok(None) => Err(error_response_str(400, "request did not produce a command")),
        Err(error) => {
            let message = chars_of(error.as_str());
            Err(error_response(400, message.as_slice()))
        },
    }
}

/// Whether `notify` answers the command whose frame starts with `command_id`.
pub fn answers_command(notify: &CXN0102Notify, command_id: u8) -> (yes: bool)
    ensures
        yes == (spec_notify_command_id(*notify) == command_id),
{
    notify_command_id(notify) == command_id
}

/// What to do once a notify has been read while waiting for the answer to a request.
#[derive(Debug, Clone, Copy, PartialEq, Eq, Structural)]
pub enum NotifyWait {
    /// The notify is the answer.
    Accept,
    /// Read the next notify.
    ReadAgain,
    /// Stop: the answer did not come within `MAX_FILTERED_NOTIFY_READS` notifies.
    GiveUp,
}

/// The step after the `reads`-th notify, which is the answer exactly when `matched`.
pub open spec fn spec_after_notify(reads: int, matched: bool) -> NotifyWait {
    if matched {
        NotifyWait::Accept
    } else if reads < MAX_FILTERED_NOTIFY_READS {
        NotifyWait::ReadAgain
    } else {
        NotifyWait::GiveUp
    }
}

/// Decides the step after the `reads`-th notify read while waiting for an answer.
pub fn after_notify(reads: usize, matched: bool) -> (w: NotifyWait)
    ensures
        w == spec_after_notify(reads as int, matched),
{
    if matched {
        NotifyWait::Accept
    } else if reads < MAX_FILTERED_NOTIFY_READS {
        NotifyWait::ReadAgain
    } else {
        NotifyWait::GiveUp
    }
}

/// The body of the answer to a command that the device answered with `reply`.
pub open spec fn command_reply_text(line: Seq<char>, bytes: Seq<u8>, reply: CXN0102Notify) -> Seq<
    char,
> {
    "{\"ok\":true,\"command\":\""@ + json_escaped(line) + "\",\"request_bytes\":\""@ + hex_text(
        bytes,
    ) + "\",\"reply\":"@ + spec_notify_json(reply) + "}"@
}

/// The `200` answer to a command that the device answered with `reply`.
pub fn command_response(line: &str, bytes: &[u8], reply: &CXN0102Notify) -> (r: HttpResponse)
    ensures
        r.status == 200,
        r.body@ == command_reply_text(line@, bytes@, *reply),
        r.content_type@ == "application/json"@,
{
    let line = chars_of(line);
    let mut body = Vec::new();
    push_str(&mut body, "{\"ok\":true,\"command\":\"");
    let escaped = json_escape(line.as_slice());
    push_chars(&mut body, escaped.as_slice());
    push_str(&mut body, "\",\"request_bytes\":\"");
    let hex = format_hex(bytes);
    push_chars(&mut body, hex.as_slice());
    push_str(&mut body, "\",\"reply\":");
    let reply_json = notify_json(reply);
    push_chars(&mut body, reply_json.as_slice());
    push_str(&mut body, "}");
    HttpResponse::json(200, string_from(body.as_slice()))
}

/// The body of the answer to a temperature request.
pub open spec fn temperature_text(n: GetTemperatureNotify) -> Seq<char> {
    "{\"ok\":true,\"result\":\""@ + n.result.spec_debug_text() + "\",\"module_temperature\":"@
        + dec_nat(n.module_temperature as nat) + ",\"mute_threshold_temperature\":"@ + dec_nat(
        n.mute_threshold_temperature as nat,
    ) + ",\"system_stop_threshold_temperature\":"@ + dec_nat(
        n.system_stop_threshold_temperature as nat,
    ) + "}"@
}

/// The `200` answer to a temperature request that the device answered with `n`.
pub fn temperature_response(n: &GetTemperatureNotify) -> (r: HttpResponse)
    ensures
        r.status == 200,
        r.body@ == temperature_text(*n),
        r.content_type@ == "application/json"@,
{
    let mut body = Vec::new();
    push_str(&mut body, "{\"ok\":true,\"result\":\"");
    let result = n.result.debug_text();
    push_chars(&mut body, result.as_slice());
    push_str(&mut body, "\",\"module_temperature\":");
    push_dec_u64(&mut body, n.module_temperature as u64);
    push_str(&mut body, ",\"mute_threshold_temperature\":");
    push_dec_u64(&mut body, n.mute_threshold_temperature as u64);
    push_str(&mut body, ",\"system_stop_threshold_temperature\":");
    push_dec_u64(&mut body, n.system_stop_threshold_temperature as u64);
    push_str(&mut body, "}");
    HttpResponse::json(200, string_from(body.as_slice()))
}

/// The body of the answer to a version request.
pub open spec fn version_response_text(n: GetVersionNotify) -> Seq<char> {
    "{\"ok\":true,\"result\":\""@ + n.result.spec_debug_text() + "\",\"firmware\":\""@
        + version_text(n.firmware@) + "\",\"parameter\":\""@ + version_text(n.parameter@)
        + "\",\"data\":\""@ + version_text(n.data@) + "\",\"firmware_bytes\":["@ + byte_list_text(
        n.firmware@,
    ) + "],\"parameter_bytes\":["@ + byte_list_text(n.parameter@) + "],\"data_bytes\":["@
        + byte_list_text(n.data@) + "]}"@
}

/// The `200` answer to a version request that the device answered with `n`.
pub fn version_response(n: &GetVersionNotify) -> (r: HttpResponse)
    ensures
        r.status == 200,
        r.body@ == version_response_text(*n),
        r.content_type@ == "application/json"@,
{
    let mut body = Vec::new();
    push_str(&mut body, "{\"ok\":true,\"result\":\"");
    let result = n.result.debug_text();
    push_chars(&mut body, result.as_slice());
    push_str(&mut body, "\",\"firmware\":\"");
    push_chars(&mut body, format_version(n.firmware.as_slice()).as_slice());
    push_str(&mut body, "\",\"parameter\":\"");
    push_chars(&mut body, format_version(n.parameter.as_slice()).as_slice());
    push_str(&mut body, "\",\"data\":\"");
    push_chars(&mut body, format_version(n.data.as_slice()).as_slice());
    push_str(&mut body, "\",\"firmware_bytes\":[");
    push_chars(&mut body, format_byte_array(n.firmware.as_slice()).as_slice());
    push_str(&mut body, "],\"parameter_bytes\":[");
    push_chars(&mut body, format_byte_array(n.parameter.as_slice()).as_slice());
    push_str(&mut body, "],\"data_bytes\":[");
    push_chars(&mut body, format_byte_array(n.data.as_slice()).as_slice());
    push_str(&mut body, "]}");
    HttpResponse::json(200, string_from(body.as_slice()))
}


// ---------------------------------------------------------------------------
// Reading a request
// ---------------------------------------------------------------------------

/// The part of `s` before the first `c`, or all of `s` where there is none.
pub open spec fn before_char(s: Seq<char>, c: char) -> Seq<char>
    decreases s.len(),
{
    if s.len() == 0 {
        s
    } else if s[0] == c {
        Seq::empty()
    } else {
        seq![s[0]] + before_char(s.drop_first(), c)
    }
}

/// The method and path of a request line, or what is missing from it.
pub open spec fn spec_request_target(line: Seq<char>) -> Result<(Seq<char>, Seq<char>), Seq<char>> {
    let parts = runs(line, 0);
    if parts.len() == 0 {
        Err("missing HTTP method"@)
    } else if parts.len() == 1 {
        Err("missing HTTP target"@)
    } else {
        Ok((parts[0], before_char(parts[1], '?')))
    }
}

fn prefix_before(s: &[char], c: char) -> (p: Vec<char>)
    ensures
        p@ == before_char(s@, c),
{
    let mut p = Vec::new();
    let mut i: usize = 0;
    assert(s@.skip(0) =~= s@);
    while i < s.len() && s[i] != c
        invariant
            i <= s@.len(),
            before_char(s@, c) == p@ + before_char(s@.skip(i as int), c),
        decreases s@.len() - i,
    {
        assert(s@.skip(i as int).drop_first() =~= s@.skip(i + 1));
        assert(p@.push(s[i as int]) =~= p@ + seq![s@[i as int]]);
        p.push(s[i]);
        i = i + 1;
    }
    assert(p@ + Seq::<char>::empty() =~= p@);
    p
}

/// Reads the method and the path (the target up to any `?`) of a request line.
pub fn request_target(line: &str) -> (r: Result<(String, String), String>)
    ensures
        match r {
            Ok((method, path)) => spec_request_target(line@) == Ok::<
                (Seq<char>, Seq<char>),
                Seq<char>,
            >((method@, path@)),
            Err(e) => spec_request_target(line@) == Err::<(Seq<char>, Seq<char>), Seq<char>>(e@),
        },
{
    let chars = chars_of(line);
    let parts = split_runs(chars.as_slice(), 0);
    if parts.len() == 0 {
        let e = chars_of("missing HTTP method");
        return Err(string_from(e.as_slice()));
    }
    if parts.len() == 1 {
        let e = chars_of("missing HTTP target");
        return Err(string_from(e.as_slice()));
    }
    let method = string_from(parts[0].as_slice());
    let path = prefix_before(parts[1].as_slice(), '?');
    Ok((method, string_from(path.as_slice())))
}

/// What a header line tells the reader of a request.
#[derive(Debug, Clone, Copy, PartialEq, Eq, Structural)]
pub enum HeaderLine {
    /// The blank line that ends the headers.
    End,
    /// A `Content-Length` header with its value.
    ContentLength(usize),
    /// Any other line.
    Other,
}

/// `s` without its trailing `\r` and `\n` chars.
pub open spec fn trim_line_end(s: Seq<char>) -> Seq<char>
    decreases s.len(),
{
    if s.len() > 0 && (s.last() == '\r' || s.last() == '\n') {
        trim_line_end(s.drop_last())
    } else {
        s
    }
}

/// `c` with ASCII upper case letters made lower case.
pub open spec fn ascii_lower(c: char) -> char {
    if 'A' <= c && c <= 'Z' {
        ((c as u32) + 32) as char
    } else {
        c
    }
}

/// Whether `a` and `b` are equal but for the case of ASCII letters.
pub open spec fn eq_ignore_ascii_case(a: Seq<char>, b: Seq<char>) -> bool {
    a.len() == b.len() && forall|i: int| 0 <= i < a.len() ==> ascii_lower(#[trigger] a[i]) == ascii_lower(b[i])
}

/// The position of the first `c` in `s`.
pub open spec fn first_index(s: Seq<char>, c: char) -> Option<int>
    decreases s.len(),
{
    if s.len() == 0 {
        None
    } else if s[0] == c {
        Some(0)
    } else {
        match first_index(s.drop_first(), c) {
            Some(k) => Some(k + 1),
            None => None,
        }
    }
}

/// What a header line means, or why the request is refused.
pub open spec fn spec_header_line(line: Seq<char>) -> Result<HeaderLine, Seq<char>> {
    let l = trim_line_end(line);
    if l.len() == 0 {
        Ok(HeaderLine::End)
    } else {
        match first_index(l, ':') {
            None => Ok(HeaderLine::Other),
            Some(k) => if eq_ignore_ascii_case(l.take(k), "content-length"@) {
                match crate::numbers::from_str_radix(
                    trim(l.skip(k + 1)),
                    10,
                    false,
                    0,
                    usize::MAX as int,
                ) {
                    Err(_) => Err("invalid Content-Length"@),
                    Ok(n) => if n > MAX_BODY_SIZE {
                        Err("request body is too large"@)
                    } else {
                        Ok(HeaderLine::ContentLength(n as usize))
                    },
                }
            } else {
                Ok(HeaderLine::Other)
            },
        }
    }
}

fn ascii_lower_char(c: char) -> (l: char)
    ensures
        l == ascii_lower(c),
{
    if 'A' <= c && c <= 'Z' {
        let code = (c as u32) + 32;
        assert('a' <= code <= 'z');
        char_of_ascii(code)
    } else {
        c
    }
}

fn char_of_ascii(code: u32) -> (c: char)
    requires
        'a' <= code <= 'z',
    ensures
        c == code as char,
{
    let b = code as u8;
    b as char
}

fn eq_ignore_case(a: &[char], b: &str) -> (eq: bool)
    ensures
        eq == eq_ignore_ascii_case(a@, b@),
{
    let bc = chars_of(b);
    if a.len() != bc.len() {
        return false;
    }
    let mut i: usize = 0;
    while i < a.len()
        invariant
            bc@ == b@,
            a@.len() == bc@.len(),
            i <= a@.len(),
            forall|j: int| 0 <= j < i ==> ascii_lower(#[trigger] a@[j]) == ascii_lower(bc@[j]),
        decreases a@.len() - i,
    {
        if ascii_lower_char(a[i]) != ascii_lower_char(bc[i]) {
            assert(ascii_lower(a@[i as int]) != ascii_lower(b@[i as int]));
            return false;
        }
        i = i + 1;
    }
    true
}

/// Reads one header line of a request.
pub fn header_line(line: &str) -> (r: Result<HeaderLine, String>)
    ensures
        match r {
            Ok(h) => spec_header_line(line@) == Ok::<HeaderLine, Seq<char>>(h),
            Err(e) => spec_header_line(line@) == Err::<HeaderLine, Seq<char>>(e@),
        },
{
    let chars = chars_of(line);
    let mut end = chars.len();
    assert(chars@.take(end as int) =~= chars@);
    while end > 0 && (chars[end - 1] == '\r' || chars[end - 1] == '\n')
        invariant
            end <= chars@.len(),
            trim_line_end(line@) == trim_line_end(chars@.take(end as int)),
            chars@ == line@,
        decreases end,
    {
        assert(chars@.take(end as int).drop_last() =~= chars@.take(end - 1));
        end = end - 1;
    }
    let ghost l = chars@.take(end as int);
    assert(trim_line_end(l) == l);
    if end == 0 {
        return Ok(HeaderLine::End);
    }
    let mut k: usize = 0;
    assert(l.skip(0) =~= l);
    while k < end && chars[k] != ':'
        invariant
            k <= end <= chars@.len(),
            l == chars@.take(end as int),
            first_index(l, ':') == match first_index(l.skip(k as int), ':') {
                Some(j) => Some(j + k),
                None => None::<int>,
            },
        decreases end - k,
    {
        assert(l.skip(k as int).drop_first() =~= l.skip(k + 1));
        k = k + 1;
    }
    if k == end {
        assert(l.skip(k as int).len() == 0);
        return Ok(HeaderLine::Other);
    }
    assert(l.skip(k as int)[0] == ':');
    let name = crate::text::chars_range(chars.as_slice(), 0, k);
    assert(name@ =~= l.take(k as int));
    if !eq_ignore_case(name.as_slice(), "content-length") {
        return Ok(HeaderLine::Other);
    }
    let value = crate::text::chars_range(chars.as_slice(), k + 1, end);
    assert(value@ =~= l.skip(k + 1));
    let trimmed = trim_chars(value.as_slice());
    match crate::numbers::parse_int(trimmed.as_slice(), 10, false, 0, usize::MAX as i128) {
        Err(_) => {
            let e = chars_of("invalid Content-Length");
            Err(string_from(e.as_slice()))
        },
        Ok(n) => if n > MAX_BODY_SIZE as i128 {
            let e = chars_of("request body is too large");
            Err(string_from(e.as_slice()))
        } else {
            Ok(HeaderLine::ContentLength(n as usize))
        },
    }
}

// ---------------------------------------------------------------------------
// Writing a response
// ---------------------------------------------------------------------------

/// The reason phrase sent with a status.
pub open spec fn reason_phrase(status: u16) -> Seq<char> {
    if status == 200 {
        "OK"@
    } else if status == 400 {
        "Bad Request"@
    } else if status == 404 {
        "Not Found"@
    } else if status == 405 {
        "Method Not Allowed"@
    } else if status == 500 {
        "Internal Server Error"@
    } else {
        "OK"@
    }
}

/// The text of a response, its `Content-Length` being the UTF-8 length of the body.
pub open spec fn spec_response_text(status: u16, content_type: Seq<char>, body: Seq<char>) -> Seq<
    char,
> {
    "HTTP/1.1 "@ + dec_nat(status as nat) + " "@ + reason_phrase(status) + "\r\nContent-Type: "@
        + content_type + "\r\nContent-Length: "@ + dec_nat(vstd::utf8::encode_utf8(body).len())
        + "\r\nConnection: close\r\n\r\n"@ + body
}

/// The number of bytes that UTF-8 takes for `s`.
fn utf8_len(s: &[char]) -> (n: u128)
    ensures
        n == vstd::utf8::encode_utf8(s@).len(),
{
    let mut n: u128 = 0;
    let mut i: usize = s.len();
    assert(s@.skip(s@.len() as int) =~= Seq::<char>::empty());
    while i > 0
        invariant
            i <= s@.len(),
            n == vstd::utf8::encode_utf8(s@.skip(i as int)).len(),
            n <= 4 * (s@.len() - i),
        decreases i,
    {
        let c = s[i - 1];
        assert(s@.skip(i - 1).drop_first() =~= s@.skip(i as int));
        assert(s@.skip(i - 1)[0] == c);
        let code = c as u32;
        let width: u128 = if code <= 0x7F {
            1
        } else if code <= 0x7FF {
            2
        } else if code <= 0xFFFF {
            3
        } else {
            4
        };
        proof {
            vstd::utf8::char_is_scalar(c);
        }
        assert(vstd::utf8::encode_scalar(code).len() == width);
        n = n + width;
        i = i - 1;
    }
    assert(s@.skip(0) =~= s@);
    n
}

/// Appends the decimal digits of `n`.
fn push_dec_u128(out: &mut Vec<char>, n: u128)
    ensures
        final(out)@ == old(out)@ + dec_nat(n as nat),
    decreases n,
{
    if n >= 10 {
        push_dec_u128(out, n / 10);
    }
    let d = (n % 10) as u64;
    push_dec_u64(out, d);
    proof {
        reveal_with_fuel(dec_nat, 2);
    }
}

fn push_reason(out: &mut Vec<char>, status: u16)
    ensures
        final(out)@ == old(out)@ + reason_phrase(status),
{
    if status == 200 {
        push_str(out, "OK");
    } else if status == 400 {
        push_str(out, "Bad Request");
    } else if status == 404 {
        push_str(out, "Not Found");
    } else if status == 405 {
        push_str(out, "Method Not Allowed");
    } else if status == 500 {
        push_str(out, "Internal Server Error");
    } else {
        push_str(out, "OK");
    }
}

/// The text to send for `response`.
pub fn response_text(response: &HttpResponse) -> (text: String)
    ensures
        text@ == spec_response_text(response.status, response.content_type@, response.body@),
{
    let mut out = Vec::new();
    push_str(&mut out, "HTTP/1.1 ");
    push_dec_u64(&mut out, response.status as u64);
    push_str(&mut out, " ");
    push_reason(&mut out, response.status);
    push_str(&mut out, "\r\nContent-Type: ");
    push_str(&mut out, response.content_type);
    push_str(&mut out, "\r\nContent-Length: ");
    let body = chars_of(response.body.as_str());
    let length = utf8_len(body.as_slice());
    push_dec_u128(&mut out, length);
    push_str(&mut out, "\r\nConnection: close\r\n\r\n");
    push_str(&mut out, response.body.as_str());
    string_from(out.as_slice())
}

} // verus!
