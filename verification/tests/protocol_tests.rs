use stt_core::protocol::{
    channel_error_reply, encode_request, immediate_reply, parse_command, render_response, Request,
};
use stt_core::session::{Response, StatusResponse};

#[test]
fn keywords_parse() {
    assert!(matches!(parse_command("START"), Request::Start));
    assert!(matches!(parse_command("STOP"), Request::Stop));
    assert!(matches!(parse_command("CANCEL"), Request::Cancel));
    assert!(matches!(parse_command("STATUS"), Request::Status));
}

#[test]
fn surrounding_whitespace_is_ignored() {
    assert!(matches!(parse_command("  START \r\n"), Request::Start));
    assert!(matches!(parse_command("\tSTOP\n"), Request::Stop));
}

#[test]
fn refresh_carries_its_payload() {
    match parse_command("REFRESH {\"model_path\":\"m.bin\"}") {
        Request::Refresh(payload) => assert_eq!(payload, "{\"model_path\":\"m.bin\"}"),
        _ => panic!("a REFRESH line must parse as a refresh request"),
    }
}

#[test]
fn unknown_lines_are_rejected() {
    assert!(matches!(parse_command(""), Request::Unknown));
    assert!(matches!(parse_command("start"), Request::Unknown));
    assert!(matches!(parse_command("REFRESH"), Request::Unknown));
    assert!(matches!(parse_command("STARTED"), Request::Unknown));
    assert!(matches!(parse_command("STATUS NOW"), Request::Unknown));
}

#[test]
fn encoding_then_parsing_is_identity() {
    let requests = vec![
        Request::Start,
        Request::Stop,
        Request::Cancel,
        Request::Status,
        Request::Refresh("{\"language\":\"en\"}".to_string()),
    ];
    for req in requests {
        let line = encode_request(&req).expect("every proper request has a line");
        let back = parse_command(&line);
        match (&req, &back) {
            (Request::Start, Request::Start) => {}
            (Request::Stop, Request::Stop) => {}
            (Request::Cancel, Request::Cancel) => {}
            (Request::Status, Request::Status) => {}
            (Request::Refresh(a), Request::Refresh(b)) => assert_eq!(a, b),
            _ => panic!("parsing an encoded request must give it back"),
        }
    }
}

#[test]
fn unknown_requests_have_no_line() {
    assert!(encode_request(&Request::Unknown).is_none());
}

#[test]
fn router_acknowledgements() {
    assert_eq!(immediate_reply(&Request::Start).unwrap(), "STATUS: RECORDING");
    assert_eq!(immediate_reply(&Request::Cancel).unwrap(), "STATUS: CANCELLED");
    assert_eq!(immediate_reply(&Request::Unknown).unwrap(), "ERROR: Unknown command");
    assert!(immediate_reply(&Request::Stop).is_none());
    assert!(immediate_reply(&Request::Status).is_none());
    assert!(immediate_reply(&Request::Refresh("x".to_string())).is_none());
}

#[test]
fn channel_failure_text() {
    assert_eq!(channel_error_reply(), "ERROR: Internal channel error");
}

#[test]
fn responses_render_to_their_wire_text() {
    assert_eq!(
        render_response(Response::Text("hello world".to_string())).unwrap(),
        "hello world"
    );
    assert_eq!(
        render_response(Response::Cancelled).unwrap(),
        "ERROR: Transcription cancelled or failed"
    );
    assert_eq!(render_response(Response::ReloadOk).unwrap(), "ok");
    assert_eq!(
        render_response(Response::ReloadErr("bad model".to_string())).unwrap(),
        "ERROR: bad model"
    );
    let snapshot = StatusResponse {
        active: true,
        pid: 1,
        model_path: "m".to_string(),
        language: "en".to_string(),
        max_recording_seconds: 600,
        state: "Idle".to_string(),
    };
    assert!(render_response(Response::Status(snapshot)).is_none());
}
