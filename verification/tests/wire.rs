use remote_session::codec::{render_ack, render_status};
use remote_session::command::RemoteCommand;
use remote_session::json::JsonValue;
use remote_session::message::{parse_http_command, parse_message, IncomingMessage};
use remote_session::status::RemoteStatus;

fn sample() -> RemoteStatus {
    RemoteStatus {
        is_playing: true,
        current_speed_milli: 1250,
        current_segment: Some(2),
        total_segments: 7,
        project_name: b"Night Run".to_vec(),
        timestamp: 1700000000123,
        connected_clients: 3,
        is_live: false,
    }
}

#[test]
fn status_renders_exact_json() {
    let bytes = render_status(&sample());
    let expected = "{\"is_playing\":true,\"current_speed\":1.25,\"current_segment\":2,\"total_segments\":7,\"project_name\":\"Night Run\",\"timestamp\":1700000000123,\"connected_clients\":3,\"is_live\":false}";
    assert_eq!(String::from_utf8(bytes).unwrap(), expected);
}

#[test]
fn status_renders_null_segment_and_whole_speed() {
    let mut st = sample();
    st.current_segment = None;
    st.current_speed_milli = 1000;
    let text = String::from_utf8(render_status(&st)).unwrap();
    assert!(text.contains("\"current_segment\":null"));
    assert!(text.contains("\"current_speed\":1.0"));
}

#[test]
fn rendered_status_is_json_that_serde_reads_back() {
    let text = String::from_utf8(render_status(&sample())).unwrap();
    let v: serde_json::Value = serde_json::from_str(&text).unwrap();
    assert_eq!(v["is_playing"], serde_json::Value::Bool(true));
    assert_eq!(v["current_speed"].as_f64().unwrap(), 1.25);
    assert_eq!(v["current_segment"].as_u64().unwrap(), 2);
    assert_eq!(v["total_segments"].as_u64().unwrap(), 7);
    assert_eq!(v["project_name"].as_str().unwrap(), "Night Run");
    assert_eq!(v["timestamp"].as_i64().unwrap(), 1700000000123);
    assert_eq!(v["connected_clients"].as_u64().unwrap(), 3);
    assert_eq!(v["is_live"], serde_json::Value::Bool(false));
}

#[test]
fn ack_renders_exact_json() {
    let bytes = render_ack(b"seek", 42);
    let expected =
        "{\"command\":\"seek\",\"message\":\"Command executed\",\"success\":true,\"timestamp\":42}";
    assert_eq!(String::from_utf8(bytes).unwrap(), expected);
}

#[test]
fn project_name_escapes_and_round_trips() {
    let mut st = sample();
    st.project_name = b"a\"b\\c\nd\x01e".to_vec();
    let rendered = render_status(&st);
    let text = String::from_utf8(rendered.clone()).unwrap();
    assert!(text.contains("a\\\"b\\\\c\\nd\\u0001e"));
    // wrap the rendering in a status-sync envelope and read it back
    let mut frame = b"{\"type\":\"status-sync\",\"status\":".to_vec();
    frame.extend_from_slice(&rendered);
    frame.push(b'}');
    match parse_message(&frame) {
        IncomingMessage::StatusSync { status } => assert_eq!(status, st),
        other => panic!("expected a status sync, got {:?}", other),
    }
}

#[test]
fn browser_register_is_recognized() {
    let m = parse_message(b"{\"type\":\"browser-register\"}");
    assert_eq!(m, IncomingMessage::BrowserRegister);
}

#[test]
fn other_type_falls_through_to_command() {
    let m = parse_message(b" {\"type\": \"set_speed\", \"value\": 1.2, \"timestamp\": 5} ");
    let expected = RemoteCommand {
        command_type: b"set_speed".to_vec(),
        value: Some(JsonValue::Num(1200)),
        timestamp: 5,
    };
    assert_eq!(m, IncomingMessage::Command(expected));
}

#[test]
fn missing_timestamp_defaults_to_zero() {
    let m = parse_message(b"{\"type\":\"play\"}");
    let expected = RemoteCommand { command_type: b"play".to_vec(), value: None, timestamp: 0 };
    assert_eq!(m, IncomingMessage::Command(expected));
}

#[test]
fn unknown_members_are_ignored() {
    let m = parse_message(
        b"{\"extra\":[1,{\"x\":\"]\"}],\"type\":\"pause\",\"more\":{\"a\":null}}",
    );
    let expected = RemoteCommand { command_type: b"pause".to_vec(), value: None, timestamp: 0 };
    assert_eq!(m, IncomingMessage::Command(expected));
}

#[test]
fn sync_without_valid_status_falls_back_to_command() {
    let m = parse_message(b"{\"type\":\"status-sync\",\"status\":{\"bogus\":1}}");
    let expected =
        RemoteCommand { command_type: b"status-sync".to_vec(), value: None, timestamp: 0 };
    assert_eq!(m, IncomingMessage::Command(expected));
}

#[test]
fn malformed_frames_are_flagged() {
    assert_eq!(parse_message(b"not json"), IncomingMessage::Malformed);
    assert_eq!(parse_message(b"{}"), IncomingMessage::Malformed);
    assert_eq!(parse_message(b"{\"value\":1}"), IncomingMessage::Malformed);
    assert_eq!(parse_message(b"{\"type\":7}"), IncomingMessage::Malformed);
    assert_eq!(parse_message(b"{\"type\":\"play\"} x"), IncomingMessage::Malformed);
    assert_eq!(parse_message(b"{\"type\":\"play\""), IncomingMessage::Malformed);
    assert_eq!(parse_message(b"{\"type\":\"play\",\"timestamp\":1.5}"), IncomingMessage::Malformed);
    assert_eq!(parse_message(b""), IncomingMessage::Malformed);
}

#[test]
fn http_body_reads_as_command() {
    let c = parse_http_command(b"{\"type\":\"seek\",\"value\":-3.5,\"timestamp\":9}").unwrap();
    assert_eq!(c.command_type, b"seek".to_vec());
    assert_eq!(c.value, Some(JsonValue::Num(-3500)));
    assert_eq!(c.timestamp, 9);
    assert!(parse_http_command(b"{\"speed\":1}").is_none());
    assert!(parse_http_command(b"[]").is_none());
}

#[test]
fn number_forms_read_in_thousandths() {
    let cases: [(&[u8], i64); 6] = [
        (b"{\"type\":\"seek\",\"value\":0.5}", 500),
        (b"{\"type\":\"seek\",\"value\":2}", 2000),
        (b"{\"type\":\"seek\",\"value\":-0.25}", -250),
        (b"{\"type\":\"seek\",\"value\":1e2}", 100000),
        (b"{\"type\":\"seek\",\"value\":2500e-3}", 2500),
        (b"{\"type\":\"seek\",\"value\":0.0001}", 0),
    ];
    for (body, milli) in cases {
        let c = parse_http_command(body).unwrap();
        assert_eq!(c.value, Some(JsonValue::Num(milli)), "body {:?}", String::from_utf8_lossy(body));
    }
}

#[test]
fn repeated_members_make_the_frame_malformed() {
    assert_eq!(
        parse_message(b"{\"type\":\"play\",\"type\":\"pause\"}"),
        IncomingMessage::Malformed
    );
    assert_eq!(
        parse_message(b"{\"type\":\"seek\",\"value\":1,\"value\":2}"),
        IncomingMessage::Malformed
    );
}

#[test]
fn sync_without_any_status_member_falls_back_to_command() {
    let m = parse_message(b"{\"type\":\"status-sync\"}");
    let expected =
        RemoteCommand { command_type: b"status-sync".to_vec(), value: None, timestamp: 0 };
    assert_eq!(m, IncomingMessage::Command(expected));
}

#[test]
fn strict_number_grammar_is_enforced() {
    // leading zeros, a bare minus and a dangling dot are not numbers
    assert!(parse_http_command(b"{\"type\":\"seek\",\"value\":01}").is_none());
    assert!(parse_http_command(b"{\"type\":\"seek\",\"value\":-}").is_none());
    assert!(parse_http_command(b"{\"type\":\"seek\",\"value\":1.}").is_none());
    assert!(parse_http_command(b"{\"type\":\"seek\",\"value\":.5}").is_none());
}

#[test]
fn unicode_names_survive_the_wire() {
    let mut st = sample();
    st.project_name = "Café – Übung ✓".as_bytes().to_vec();
    let rendered = render_status(&st);
    let mut frame = b"{\"type\":\"status-sync\",\"status\":".to_vec();
    frame.extend_from_slice(&rendered);
    frame.push(b'}');
    match parse_message(&frame) {
        IncomingMessage::StatusSync { status } => {
            assert_eq!(String::from_utf8(status.project_name).unwrap(), "Café – Übung ✓")
        }
        other => panic!("expected a status sync, got {:?}", other),
    }
}

#[test]
fn escaped_latin1_code_points_are_decoded() {
    // the form the server's own writer emits for control bytes, and the
    // two-byte code points just above ASCII
    let c = parse_http_command(b"{\"type\":\"\\u0070lay\"}").unwrap();
    assert_eq!(c.command_type, b"play".to_vec());
    let m = parse_http_command(b"{\"type\":\"caf\\u00e9\"}").unwrap();
    assert_eq!(String::from_utf8(m.command_type).unwrap(), "caf\u{e9}");
}
