use remote_session::command::AppEvent;
use remote_session::http::{http_command, http_status};
use remote_session::status::ServerState;

#[test]
fn status_endpoint_renders_fresh_snapshot() {
    let mut store = ServerState::new(5);
    store.increment_clients();
    let body = String::from_utf8(http_status(&store, 999)).unwrap();
    assert!(body.contains("\"timestamp\":999"));
    assert!(body.contains("\"connected_clients\":1"));
    assert!(body.contains("\"project_name\":\"Untitled Project\""));
    // reading never mutates the store
    assert_eq!(store.status.timestamp, 5);
}

#[test]
fn command_endpoint_acknowledges_and_emits() {
    let r = http_command(b"{\"type\":\"play\"}", 7).expect("a command body");
    assert_eq!(r.0, Some(AppEvent::Play));
    assert_eq!(
        String::from_utf8(r.1).unwrap(),
        "{\"command\":\"play\",\"message\":\"Command executed\",\"success\":true,\"timestamp\":7}"
    );
}

#[test]
fn seek_with_text_value_acknowledges_but_emits_nothing() {
    let body = b"{\"type\":\"seek\",\"value\":\"not-a-number\"}";
    let r = http_command(body, 11).expect("the body still parses as a command");
    // no event reaches the host bus
    assert_eq!(r.0, None);
    // yet the standard acknowledgement envelope comes back
    assert_eq!(
        String::from_utf8(r.1).unwrap(),
        "{\"command\":\"seek\",\"message\":\"Command executed\",\"success\":true,\"timestamp\":11}"
    );
}

#[test]
fn unreadable_body_is_no_command() {
    assert!(http_command(b"", 1).is_none());
    assert!(http_command(b"{\"value\":3}", 1).is_none());
    assert!(http_command(b"plain text", 1).is_none());
}

#[test]
fn command_endpoint_never_touches_the_store() {
    let mut store = ServerState::new(0);
    store.increment_clients();
    let before = store.status.clone();
    let _ = http_command(b"{\"type\":\"pause\"}", 3).unwrap();
    assert_eq!(store.status, before);
}
