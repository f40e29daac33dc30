use cxn0102::cli::{is_help_line, parse_request_line};

#[test]
fn parses_empty_command() {
    assert_eq!(
        parse_request_line("start-input").unwrap(),
        Some(vec![0x01, 0x00])
    );
}

#[test]
fn parses_i8_command() {
    assert_eq!(
        parse_request_line("set-brightness --brightness -5").unwrap(),
        Some(vec![0x43, 0x01, 0xfb])
    );
}

#[test]
fn parses_enum_command() {
    assert_eq!(
        parse_request_line("shutdown-reboot --option reboot").unwrap(),
        Some(vec![0x0b, 0x01, 0x01])
    );
}

#[test]
fn blank_line_is_no_command() {
    assert_eq!(parse_request_line("   ").unwrap(), None);
}

#[test]
fn help_line_is_no_command() {
    assert_eq!(parse_request_line("help").unwrap(), None);
    assert!(is_help_line("  Help "));
    assert!(!is_help_line("start-input"));
}

#[test]
fn command_names_ignore_case_dashes_and_underscores() {
    assert_eq!(
        parse_request_line("Start_Input").unwrap(),
        Some(vec![0x01, 0x00])
    );
    assert_eq!(
        parse_request_line("shutdown --option reboot").unwrap(),
        Some(vec![0x0b, 0x01, 0x01])
    );
}

#[test]
fn unknown_command_is_refused() {
    assert_eq!(
        parse_request_line("fly-away").unwrap_err(),
        "unknown command 'flyaway'"
    );
}

#[test]
fn missing_flag_is_refused() {
    assert_eq!(
        parse_request_line("set-brightness").unwrap_err(),
        "missing --brightness"
    );
}

#[test]
fn unused_flags_are_named_in_order() {
    assert_eq!(
        parse_request_line("start-input --b 1 --a 2").unwrap_err(),
        "unused flag(s): a, b"
    );
}

#[test]
fn flag_without_value_is_refused() {
    assert_eq!(
        parse_request_line("set-brightness --brightness").unwrap_err(),
        "missing value for --brightness"
    );
    assert_eq!(
        parse_request_line("set-brightness brightness 1").unwrap_err(),
        "expected flag, got 'brightness'"
    );
}

#[test]
fn out_of_range_value_is_refused() {
    assert_eq!(
        parse_request_line("set-brightness --brightness 200").unwrap_err(),
        "200 is outside -128..=127"
    );
    assert_eq!(
        parse_request_line("set-sharpness --sharpness -1").unwrap_err(),
        "invalid digit found in string"
    );
}

#[test]
fn hexadecimal_values_are_read() {
    assert_eq!(
        parse_request_line("set-sharpness --sharpness 0x10").unwrap(),
        Some(vec![0x4F, 0x01, 0x10])
    );
    assert_eq!(
        parse_request_line("set-brightness --brightness -0x05").unwrap(),
        Some(vec![0x43, 0x01, 0xfb])
    );
}

#[test]
fn raw_bytes_in_each_form() {
    assert_eq!(
        parse_request_line("raw --bytes 0xa0,0").unwrap(),
        Some(vec![0xa0, 0x00])
    );
    assert_eq!(
        parse_request_line("raw --bytes 0xA000").unwrap(),
        Some(vec![0xa0, 0x00])
    );
    assert_eq!(
        parse_request_line("raw --bytes 7").unwrap(),
        Some(vec![7])
    );
}

#[test]
fn rgb_needs_three_bytes() {
    assert_eq!(
        parse_request_line(
            "output-test-picture --pattern color-bar --setting 0 --background-color 00,00 --foreground-color ff,ff,ff"
        )
        .unwrap_err(),
        "RGB value must have 3 bytes, got 2"
    );
}

#[test]
fn command_names_are_lowercased_beyond_ascii() {
    assert_eq!(
        parse_request_line("ST\u{c4}RT").unwrap_err(),
        "unknown command 'st\u{e4}rt'"
    );
    assert_eq!(
        parse_request_line("\u{212A}ELVIN").unwrap_err(),
        "unknown command 'kelvin'"
    );
}

#[test]
fn oversized_division_block_reports_the_error_as_debug_text() {
    let data = vec!["01"; 65].join(",");
    let line = format!("division-transmission-update-data --format size64 --block-number 0 --data {data}");
    let expected = format!(
        "{:?}",
        cxn0102::commands::CommandError::DivisionBlockTooLarge { max: 64, actual: 65 }
    );
    assert_eq!(parse_request_line(&line).unwrap_err(), expected);
    assert_eq!(expected, "DivisionBlockTooLarge { max: 64, actual: 65 }");
}

#[test]
fn division_block_within_format_builds_a_padded_frame() {
    let bytes = parse_request_line(
        "division-transmission-update-data --format 64 --block-number 2 --data 0a0b",
    )
    .unwrap()
    .unwrap();
    assert_eq!(bytes.len(), 68);
    assert_eq!(&bytes[..6], &[0x9F, 0x00, 0x02, 0x00, 0x0a, 0x0b]);
}

#[test]
fn help_example_with_hex_colors_is_accepted() {
    assert_eq!(
        parse_request_line(
            "output-test-picture --pattern color-bar --setting 0 --background-color 00,00,00 --foreground-color ff,ff,ff"
        )
        .unwrap(),
        Some(vec![
            0xA3, 0x11, 0x01, 0x00, 0x00, 0x00, 0x00, 0xFF, 0xFF, 0xFF, 0, 0, 0, 0, 0, 0, 0, 0,
            0
        ])
    );
}

#[test]
fn every_help_example_is_accepted() {
    for line in [
        "start-input",
        "set-brightness --brightness -5",
        "get-version",
        "raw --bytes 01,00",
    ] {
        assert!(matches!(parse_request_line(line), Ok(Some(_))), "{line}");
    }
}

#[test]
fn byte_list_parts_read_decimal_first_then_hex_digits() {
    assert_eq!(
        parse_request_line("raw --bytes 10,20").unwrap(),
        Some(vec![10, 20])
    );
    assert_eq!(
        parse_request_line("raw --bytes 1a,f,0x10").unwrap(),
        Some(vec![0x1a, 0x0f, 0x10])
    );
    assert_eq!(
        parse_request_line("raw --bytes 256,1").unwrap_err(),
        "256 is outside 0..=255"
    );
    assert_eq!(
        parse_request_line("raw --bytes fff,1").unwrap_err(),
        "invalid digit found in string"
    );
}

#[test]
fn flag_names_ignore_case_and_dashes() {
    assert_eq!(
        parse_request_line("SET_BRIGHTNESS --Bright-Ness -5").unwrap(),
        parse_request_line("set-brightness --brightness -5").unwrap()
    );
}
