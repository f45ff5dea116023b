use nyancat::frame::build_frame;
use nyancat::ws::{
    frame_message_json, init_message_json, message_from_parts, session_step, MessageFrame,
    SessionAction, SessionState, StatusCode,
};

#[test]
fn the_opening_message_is_code_zero() {
    assert_eq!(init_message_json(), b"{\"code\":0}".to_vec());
}

#[test]
fn wire_codes_map_to_the_three_statuses() {
    assert_eq!(StatusCode::Init.code(), 0);
    assert_eq!(StatusCode::Okay.code(), 1);
    assert_eq!(StatusCode::Error.code(), 2);
    assert_eq!(StatusCode::from_code(0), Some(StatusCode::Init));
    assert_eq!(StatusCode::from_code(1), Some(StatusCode::Okay));
    assert_eq!(StatusCode::from_code(2), Some(StatusCode::Error));
    assert_eq!(StatusCode::from_code(3), None);
    assert_eq!(StatusCode::from_code(255), None);
}

#[test]
fn a_code_outside_the_schema_is_a_protocol_error() {
    assert!(message_from_parts(7, None, None, None).is_none());
    let msg = message_from_parts(1, Some(100), Some(30), None).unwrap();
    assert_eq!(msg.code, StatusCode::Okay);
    assert_eq!(msg.width, Some(100));
    assert_eq!(msg.height, Some(30));
    assert!(msg.frame.is_none());
}

fn okay_size_message(width: u16, height: u16) -> MessageFrame {
    MessageFrame { code: StatusCode::Okay, width: Some(width), height: Some(height), frame: None }
}

#[test]
fn announcing_a_size_starts_streaming() {
    let (state, action) = session_step(SessionState::Init, &okay_size_message(100, 30));
    assert_eq!(state, SessionState::Streaming { width: 100, height: 30 });
    assert_eq!(action, SessionAction::StartStreaming { width: 100, height: 30 });
}

#[test]
fn an_incomplete_size_announcement_aborts() {
    let msg = MessageFrame { code: StatusCode::Okay, width: Some(100), height: None, frame: None };
    let (state, action) = session_step(SessionState::Init, &msg);
    assert_eq!(state, SessionState::Closed);
    assert_eq!(action, SessionAction::Abort);
}

#[test]
fn an_init_echo_is_ignored_while_waiting() {
    let msg = MessageFrame { code: StatusCode::Init, width: None, height: None, frame: None };
    let (state, action) = session_step(SessionState::Init, &msg);
    assert_eq!(state, SessionState::Init);
    assert_eq!(action, SessionAction::Ignore);
}

#[test]
fn a_client_error_aborts_in_any_state() {
    let msg = MessageFrame { code: StatusCode::Error, width: None, height: None, frame: None };
    let (state, action) = session_step(SessionState::Init, &msg);
    assert_eq!(state, SessionState::Closed);
    assert_eq!(action, SessionAction::Abort);

    let streaming = SessionState::Streaming { width: 100, height: 30 };
    let (state, action) = session_step(streaming, &msg);
    assert_eq!(state, SessionState::Closed);
    assert_eq!(action, SessionAction::Abort);
}

#[test]
fn a_second_size_announcement_is_dropped() {
    let streaming = SessionState::Streaming { width: 100, height: 30 };
    let (state, action) = session_step(streaming, &okay_size_message(10, 10));
    assert_eq!(state, streaming);
    assert_eq!(action, SessionAction::Ignore);
}

#[test]
fn a_closed_session_stays_closed() {
    let (state, action) = session_step(SessionState::Closed, &okay_size_message(10, 10));
    assert_eq!(state, SessionState::Closed);
    assert_eq!(action, SessionAction::Ignore);
}

#[test]
fn frame_messages_are_valid_json_with_code_one() {
    let frame: Vec<u8> = b"\x1b[48;5;111m  \n".to_vec();
    let bytes = frame_message_json(&frame);
    let text = String::from_utf8(bytes).unwrap();
    let value: serde_json::Value = serde_json::from_str(&text).unwrap();
    assert_eq!(value.get("code").unwrap().as_u64(), Some(1));
    assert_eq!(
        value.get("frame").unwrap().as_str(),
        Some("\u{1b}[48;5;111m  \n")
    );
    assert!(value.get("width").is_none());
    assert!(value.get("height").is_none());
}

#[test]
fn frame_text_escaping_round_trips_through_json() {
    let frame: Vec<u8> = b"quote \" backslash \\ escape \x1b newline \n tab \t".to_vec();
    let text = String::from_utf8(frame_message_json(&frame)).unwrap();
    let value: serde_json::Value = serde_json::from_str(&text).unwrap();
    assert_eq!(
        value.get("frame").unwrap().as_str().unwrap().as_bytes(),
        frame.as_slice()
    );
}

#[test]
fn the_opening_message_parses_as_json_code_zero() {
    let text = String::from_utf8(init_message_json()).unwrap();
    let value: serde_json::Value = serde_json::from_str(&text).unwrap();
    assert_eq!(value.get("code").unwrap().as_u64(), Some(0));
    assert!(value.get("frame").is_none());
}

#[test]
fn websocket_session_scenario() {
    // server opens with {"code":0}
    let opening = String::from_utf8(init_message_json()).unwrap();
    assert_eq!(opening, "{\"code\":0}");

    // client answers {"code":1,"width":100,"height":30}
    let msg = message_from_parts(1, Some(100), Some(30), None).unwrap();
    let (state, action) = session_step(SessionState::Init, &msg);
    assert_eq!(action, SessionAction::StartStreaming { width: 100, height: 30 });
    assert_eq!(state, SessionState::Streaming { width: 100, height: 30 });

    // the server then emits {"code":1,"frame":"<non-empty>"} per tick
    let art: Vec<Vec<u8>> = vec![vec![b',', b'.'], vec![b'@', b'$']];
    let tick = build_frame(&art, 100, 30, false);
    let text = String::from_utf8(frame_message_json(&tick)).unwrap();
    assert!(text.starts_with("{\"code\":1,\"frame\":\""));
    let value: serde_json::Value = serde_json::from_str(&text).unwrap();
    assert!(!value.get("frame").unwrap().as_str().unwrap().is_empty());
}
