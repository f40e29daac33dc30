use cxn0102::commands::{CXN0102Notify, CommandResult, GetTemperatureNotify, GetTimeNotify, GetVersionNotify};
use cxn0102::http::{
    after_notify, answers_command, NotifyWait, MAX_FILTERED_NOTIFY_READS, command_request, command_response, error_response, header_line, health_response,
    method_not_allowed_response, not_found_response, request_target, response_text, route_request,
    temperature_response, version_response, HeaderLine, HttpResponse, Route, MAX_BODY_SIZE,
};

#[test]
fn routes_by_method_and_path() {
    assert_eq!(route_request("GET", "/"), Route::Index);
    assert_eq!(route_request("GET", "/health"), Route::Health);
    assert_eq!(route_request("GET", "/api/temperature"), Route::Temperature);
    assert_eq!(route_request("GET", "/api/version"), Route::Version);
    assert_eq!(route_request("POST", "/command"), Route::Command);
    assert_eq!(route_request("POST", "/api/command"), Route::Command);
    assert_eq!(route_request("GET", "/api/command"), Route::CommandNeedsPost);
    assert_eq!(route_request("POST", "/health"), Route::NotFound);
    assert_eq!(route_request("get", "/"), Route::NotFound);
}

#[test]
fn fixed_responses() {
    let health = health_response();
    assert_eq!(health.status, 200);
    assert_eq!(health.body, r#"{"status":"ok"}"#);
    assert_eq!(health.content_type, "application/json");

    let missing = not_found_response();
    assert_eq!(missing.status, 404);
    assert_eq!(missing.body, r#"{"ok":false,"error":"not found"}"#);

    let wrong_method = method_not_allowed_response();
    assert_eq!(wrong_method.status, 405);
    assert_eq!(
        wrong_method.body,
        r#"{"ok":false,"error":"use POST for command requests"}"#
    );

    let html = HttpResponse::html(200, "<p>x</p>".to_string());
    assert_eq!(html.content_type, "text/html; charset=utf-8");
}

#[test]
fn error_response_escapes_the_message() {
    let message: Vec<char> = "bad \"x\"\n".chars().collect();
    let response = error_response(500, &message);
    assert_eq!(response.status, 500);
    assert_eq!(response.body, r#"{"ok":false,"error":"bad \"x\"\n"}"#);
}

#[test]
fn command_request_reads_line_and_frame() {
    let (line, bytes) = command_request(
        br#"{"command":"set-brightness","args":{"brightness":-5}}"#.to_vec(),
    )
    .ok()
    .unwrap();
    assert_eq!(line, "set-brightness --brightness -5");
    assert_eq!(bytes, vec![0x43, 0x01, 0xfb]);
}

#[test]
fn command_request_refuses_bytes_that_are_not_utf8() {
    let response = command_request(vec![0x67, 0xff]).err().unwrap();
    assert_eq!(response.status, 400);
    assert_eq!(
        response.body,
        r#"{"ok":false,"error":"request body must be UTF-8: invalid utf-8 sequence of 1 bytes from index 1"}"#
    );
}

#[test]
fn command_request_refuses_help_and_bad_lines() {
    let response = command_request(b"help".to_vec()).err().unwrap();
    assert_eq!(response.status, 400);
    assert_eq!(
        response.body,
        r#"{"ok":false,"error":"request did not produce a command"}"#
    );

    let response = command_request(b"  ".to_vec()).err().unwrap();
    assert_eq!(response.body, r#"{"ok":false,"error":"request body is empty"}"#);

    let response = command_request(b"nope".to_vec()).err().unwrap();
    assert_eq!(
        response.body,
        r#"{"ok":false,"error":"unknown command 'nope'"}"#
    );
}

#[test]
fn command_response_reports_line_frame_and_reply() {
    let reply = CXN0102Notify::GetTime(GetTimeNotify {
        result: CommandResult::Normal,
        seconds: 0x11223344,
    });
    let response = command_response("get-time \"now\"", &[0xA1, 0x00], &reply);
    assert_eq!(response.status, 200);
    assert_eq!(
        response.body,
        r#"{"ok":true,"command":"get-time \"now\"","request_bytes":"a1 00","reply":{"command_id":161,"type":"get-time","result":"Normal","seconds":287454020}}"#
    );
}

#[test]
fn temperature_and_version_responses() {
    let temperature = temperature_response(&GetTemperatureNotify {
        result: CommandResult::Normal,
        module_temperature: 40,
        mute_threshold_temperature: 70,
        system_stop_threshold_temperature: 80,
    });
    assert_eq!(
        temperature.body,
        r#"{"ok":true,"result":"Normal","module_temperature":40,"mute_threshold_temperature":70,"system_stop_threshold_temperature":80}"#
    );

    let version = version_response(&GetVersionNotify {
        result: CommandResult::Normal,
        firmware: [1, 2, 3, 4],
        parameter: [0, 0, 1, 10],
        data: [255, 0, 0, 7],
    });
    assert_eq!(
        version.body,
        r#"{"ok":true,"result":"Normal","firmware":"1.2.3.4","parameter":"0.0.1.10","data":"255.0.0.7","firmware_bytes":[1,2,3,4],"parameter_bytes":[0,0,1,10],"data_bytes":[255,0,0,7]}"#
    );
}

#[test]
fn request_line_gives_method_and_path() {
    let (method, path) = request_target("GET /api/version?x=1 HTTP/1.1\r\n").unwrap();
    assert_eq!(method, "GET");
    assert_eq!(path, "/api/version");
    assert_eq!(request_target("\r\n").unwrap_err(), "missing HTTP method");
    assert_eq!(request_target("GET\r\n").unwrap_err(), "missing HTTP target");
}

#[test]
fn header_lines() {
    assert_eq!(header_line("\r\n").unwrap(), HeaderLine::End);
    assert_eq!(header_line("Host: example\r\n").unwrap(), HeaderLine::Other);
    assert_eq!(header_line("no colon here\r\n").unwrap(), HeaderLine::Other);
    assert_eq!(
        header_line("Content-Length: 12\r\n").unwrap(),
        HeaderLine::ContentLength(12)
    );
    assert_eq!(
        header_line("content-LENGTH:   +7  \n").unwrap(),
        HeaderLine::ContentLength(7)
    );
    assert_eq!(
        header_line(&format!("Content-Length: {}\r\n", MAX_BODY_SIZE)).unwrap(),
        HeaderLine::ContentLength(1024 * 1024)
    );
    assert_eq!(
        header_line("Content-Length: x\r\n").unwrap_err(),
        "invalid Content-Length"
    );
    assert_eq!(
        header_line("Content-Length: 1048577\r\n").unwrap_err(),
        "request body is too large"
    );
}

#[test]
fn response_text_counts_utf8_bytes() {
    let response = HttpResponse::json(200, "{}".to_string());
    assert_eq!(
        response_text(&response),
        "HTTP/1.1 200 OK\r\nContent-Type: application/json\r\nContent-Length: 2\r\nConnection: close\r\n\r\n{}"
    );
    let response = HttpResponse::json(404, "\u{e9}\u{2603}\u{1F600}".to_string());
    assert_eq!(
        response_text(&response),
        "HTTP/1.1 404 Not Found\r\nContent-Type: application/json\r\nContent-Length: 9\r\nConnection: close\r\n\r\n\u{e9}\u{2603}\u{1F600}"
    );
    let response = HttpResponse::json(302, String::new());
    assert!(response_text(&response).starts_with("HTTP/1.1 302 OK\r\n"));
}

#[test]
fn reply_matches_by_command_id() {
    let reply = CXN0102Notify::GetTime(GetTimeNotify {
        result: CommandResult::Normal,
        seconds: 1,
    });
    assert!(answers_command(&reply, 0xA1));
    assert!(!answers_command(&reply, 0xA2));
}

#[test]
fn waiting_for_an_answer_reads_at_most_eight_notifies() {
    assert_eq!(MAX_FILTERED_NOTIFY_READS, 8);
    assert_eq!(after_notify(1, true), NotifyWait::Accept);
    assert_eq!(after_notify(8, true), NotifyWait::Accept);
    assert_eq!(after_notify(1, false), NotifyWait::ReadAgain);
    assert_eq!(after_notify(7, false), NotifyWait::ReadAgain);
    assert_eq!(after_notify(8, false), NotifyWait::GiveUp);
}
