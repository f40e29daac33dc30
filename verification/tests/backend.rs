use cxn0102::backend::notify_json;
use cxn0102::commands::{CXN0102Notify, CommandResult, CommandResultNotify, GetBrightnessNotify};
use cxn0102::json::string_json;
use cxn0102::request_json::{command_line_from_body, command_line_from_json};

#[test]
fn accepts_plain_cli_line() {
    assert_eq!(
        command_line_from_body("set-brightness --brightness -5").unwrap(),
        "set-brightness --brightness -5"
    );
}

#[test]
fn accepts_json_line() {
    assert_eq!(
        command_line_from_body(r#"{"line":"get-version"}"#).unwrap(),
        "get-version"
    );
}

#[test]
fn builds_cli_line_from_json_command_and_args() {
    assert_eq!(
        command_line_from_body(r#"{"command":"set-brightness","args":{"brightness":-5}}"#)
            .unwrap(),
        "set-brightness --brightness -5"
    );
}

#[test]
fn builds_cli_line_from_string_args() {
    assert_eq!(
        command_line_from_body(
            r#"{"command":"output-test-picture","args":{"background-color":"00,00,00","foreground-color":"ff,ff,ff","pattern":"color-bar","setting":0}}"#
        )
        .unwrap(),
        "output-test-picture --background-color 00,00,00 --foreground-color ff,ff,ff --pattern color-bar --setting 0"
    );
}

#[test]
fn plain_body_is_trimmed() {
    assert_eq!(
        command_line_from_body("  \t get-version \r\n").unwrap(),
        "get-version"
    );
}

#[test]
fn empty_body_is_refused() {
    assert_eq!(
        command_line_from_body(" \n ").unwrap_err(),
        "request body is empty"
    );
}

#[test]
fn args_come_in_name_order() {
    assert_eq!(
        command_line_from_body(r#"{"command":"c","args":{"b":"2","a":"1"}}"#).unwrap(),
        "c --a 1 --b 2"
    );
}

#[test]
fn later_member_replaces_earlier_one() {
    assert_eq!(
        command_line_from_body(r#"{"line":"first","line":"second"}"#).unwrap(),
        "second"
    );
    assert_eq!(
        command_line_from_body(r#"{"command":"c","args":{"a":"1","a":"2"}}"#).unwrap(),
        "c --a 2"
    );
}

#[test]
fn line_that_is_not_text_falls_back_to_command() {
    assert_eq!(
        command_line_from_body(r#"{"line":5,"command":"get-time"}"#).unwrap(),
        "get-time"
    );
}

#[test]
fn boolean_and_number_args_keep_their_text() {
    assert_eq!(
        command_line_from_body(r#"{"command":"c","args":{"flag":true,"off":false,"n":-1.5e+3}}"#)
            .unwrap(),
        "c --flag true --n -1.5e+3 --off false"
    );
}

#[test]
fn null_and_object_args_are_refused() {
    assert_eq!(
        command_line_from_body(r#"{"command":"c","args":{"a":null}}"#).unwrap_err(),
        "argument values cannot be null"
    );
    assert_eq!(
        command_line_from_body(r#"{"command":"c","args":{"a":{}}}"#).unwrap_err(),
        "nested argument objects are not supported"
    );
}

#[test]
fn command_field_errors() {
    assert_eq!(
        command_line_from_body(r#"{"args":{}}"#).unwrap_err(),
        "JSON request needs either 'line' or 'command'"
    );
    assert_eq!(
        command_line_from_body(r#"{"command":"  "}"#).unwrap_err(),
        "JSON field 'command' must be a non-empty string"
    );
    assert_eq!(
        command_line_from_body(r#"{"command":1}"#).unwrap_err(),
        "JSON field 'command' must be a non-empty string"
    );
    assert_eq!(
        command_line_from_body(r#"{"command":"c","args":[1]}"#).unwrap_err(),
        "unexpected JSON character '['"
    );
    assert_eq!(
        command_line_from_body(r#"{"command":"c","args":"x"}"#).unwrap_err(),
        "JSON field 'args' must be an object"
    );
}

#[test]
fn json_syntax_errors() {
    assert_eq!(
        command_line_from_body(r#"{"line":"a"} x"#).unwrap_err(),
        "unexpected data after JSON object"
    );
    assert_eq!(
        command_line_from_json(r#""text""#).unwrap_err(),
        "JSON request body must be an object"
    );
    assert_eq!(
        command_line_from_body(r#"{"line" "a"}"#).unwrap_err(),
        "expected ':', got '\"'"
    );
    assert_eq!(
        command_line_from_body(r#"{"line":"a""#).unwrap_err(),
        "expected ',', got end of JSON"
    );
    assert_eq!(
        command_line_from_body(r#"{"line":"abc"#).unwrap_err(),
        "unterminated JSON string"
    );
    assert_eq!(
        command_line_from_body(r#"{"line":tru}"#).unwrap_err(),
        "expected JSON literal 'true'"
    );
    assert_eq!(
        command_line_from_body(r#"{"line":"\q"}"#).unwrap_err(),
        "invalid JSON escape '\\q'"
    );
    assert_eq!(
        command_line_from_body("{\"line\":\"a\u{1}\"}").unwrap_err(),
        "control character in JSON string"
    );
}

#[test]
fn string_escapes_are_decoded() {
    assert_eq!(
        command_line_from_body(r#"{"line":"a\"b\\c\/d\te"}"#).unwrap(),
        "a\"b\\c/d\te"
    );
    assert_eq!(
        command_line_from_body(r#"{"line":"caf\u00e9 \u2603"}"#).unwrap(),
        "caf\u{e9} \u{2603}"
    );
}

#[test]
fn unicode_escape_errors() {
    assert_eq!(
        command_line_from_body(r#"{"line":"\ud800"}"#).unwrap_err(),
        "invalid JSON unicode scalar"
    );
    assert_eq!(
        command_line_from_body(r#"{"line":"\u12g4"}"#).unwrap_err(),
        "invalid JSON unicode escape"
    );
    assert_eq!(
        command_line_from_body(r#"{"line":"\u12"#).unwrap_err(),
        "incomplete JSON unicode escape"
    );
}

#[test]
fn written_json_string_is_read_back_as_line() {
    for text in [
        "get-version",
        "say \"hi\" \\ /",
        "tab\tnew\nline\rcr",
        "bell\u{7}del\u{7f}c1\u{85}",
        "caf\u{e9} \u{2603} \u{1F600}",
        "",
    ] {
        let chars: Vec<char> = text.chars().collect();
        let quoted: String = string_json(&chars).into_iter().collect();
        let body = format!("{{\"line\":{quoted}}}");
        assert_eq!(command_line_from_body(&body).unwrap(), text);
    }
}

#[test]
fn args_written_in_any_order_give_the_same_line() {
    let a = command_line_from_body(
        r#"{"command":"set-hue","args":{"hue-u":1,"hue-v":"-2"}}"#,
    )
    .unwrap();
    let b = command_line_from_body(
        r#"{"args":{"hue-v":"-2","hue-u":1},"command":"set-hue"}"#,
    )
    .unwrap();
    assert_eq!(a, b);
    assert_eq!(a, "set-hue --hue-u 1 --hue-v -2");
}

#[test]
fn notify_json_leads_with_command_id_and_type() {
    let notifies = [
        CXN0102Notify::StartInput(CommandResultNotify {
            result: CommandResult::Normal,
        }),
        CXN0102Notify::GetBrightness(GetBrightnessNotify {
            result: CommandResult::Normal,
            brightness: -3,
        }),
    ];
    let expected = [
        r#"{"command_id":1,"type":"start-input","result":"Normal"}"#,
        r#"{"command_id":66,"type":"get-brightness","result":"Normal","brightness":-3}"#,
    ];
    for (n, e) in notifies.iter().zip(expected) {
        let text: String = notify_json(n).into_iter().collect();
        assert_eq!(text, e);
    }
}
