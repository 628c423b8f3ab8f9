use remote_session::codec::render_status;
use remote_session::command::AppEvent;
use remote_session::session::{update_status, Frame, OutFrame, Session, SessionPhase};
use remote_session::status::{RemoteStatus, ServerState};

fn pushed_status() -> RemoteStatus {
    RemoteStatus {
        is_playing: true,
        current_speed_milli: 2000,
        current_segment: Some(1),
        total_segments: 4,
        project_name: b"Live Set".to_vec(),
        timestamp: 500,
        connected_clients: 999,
        is_live: true,
    }
}

#[test]
fn first_message_is_snapshot_at_connect_time() {
    let mut store = ServerState::new(10);
    let mut s = Session::connecting();
    let first = s.activate(&mut store, 77);
    assert_eq!(s.phase, SessionPhase::Active);
    assert_eq!(store.status.connected_clients, 1);
    // the very first frame equals the store's snapshot at connect time,
    // with this client already counted
    let expected = render_status(&store.read(77));
    assert_eq!(first, expected);
    let text = String::from_utf8(first).unwrap();
    assert!(text.contains("\"connected_clients\":1"));
    assert!(text.contains("\"timestamp\":77"));
}

#[test]
fn status_sync_broadcasts_identical_bytes_to_everyone() {
    let mut store = ServerState::new(0);
    let mut alpha = Session::connecting();
    let mut beta = Session::connecting();
    alpha.activate(&mut store, 1);
    beta.activate(&mut store, 2);

    let mut frame = b"{\"type\":\"status-sync\",\"status\":".to_vec();
    frame.extend_from_slice(&render_status(&pushed_status()));
    frame.push(b'}');
    let out = alpha.handle_frame(&mut store, Frame::Text(frame), 33);

    // the gateway-tracked count survives the peer's 999
    assert_eq!(store.status.connected_clients, 2);
    assert!(out.reply.is_none());
    assert!(out.event.is_none());
    assert!(!out.disconnect);
    // one broadcast payload: every subscriber is handed this very value
    let payload = out.broadcast.expect("a sync must broadcast");
    let expected = render_status(&store.read(33));
    assert_eq!(payload, expected);
    let text = String::from_utf8(payload).unwrap();
    assert!(text.contains("\"connected_clients\":2"));
    assert!(text.contains("\"project_name\":\"Live Set\""));
}

#[test]
fn command_gets_direct_feedback_and_event() {
    let mut store = ServerState::new(0);
    let mut s = Session::connecting();
    s.activate(&mut store, 1);
    let out = s.handle_frame(
        &mut store,
        Frame::Text(b"{\"type\":\"set_speed\",\"value\":9.9}".to_vec()),
        40,
    );
    assert_eq!(out.event, Some(AppEvent::SetSpeed(2000)));
    assert!(out.broadcast.is_none());
    match out.reply {
        Some(OutFrame::Text(t)) => assert_eq!(t, render_status(&store.read(40))),
        other => panic!("expected direct feedback, got {:?}", other),
    }
}

#[test]
fn frobnicate_changes_nothing() {
    let mut store = ServerState::new(0);
    let mut s = Session::connecting();
    s.activate(&mut store, 1);
    let before = store.status.clone();
    let out = s.handle_frame(
        &mut store,
        Frame::Text(b"{\"type\":\"frobnicate\"}".to_vec()),
        50,
    );
    // no outbound event, status untouched, connection still up
    assert_eq!(out.event, None);
    assert!(out.broadcast.is_none());
    assert!(!out.disconnect);
    assert_eq!(s.phase, SessionPhase::Active);
    assert_eq!(store.status, before);
    // the issuing client still gets its feedback snapshot
    assert!(out.reply.is_some());
}

#[test]
fn malformed_text_is_dropped_quietly() {
    let mut store = ServerState::new(0);
    let mut s = Session::connecting();
    s.activate(&mut store, 1);
    let before = store.status.clone();
    let out = s.handle_frame(&mut store, Frame::Text(b"{oops".to_vec()), 60);
    assert!(out.reply.is_none());
    assert!(out.broadcast.is_none());
    assert_eq!(out.event, None);
    assert!(!out.disconnect);
    assert_eq!(store.status, before);
    assert_eq!(s.phase, SessionPhase::Active);
}

#[test]
fn ping_answers_pong_on_direct_queue() {
    let mut store = ServerState::new(0);
    let mut s = Session::connecting();
    s.activate(&mut store, 1);
    let out = s.handle_frame(&mut store, Frame::Ping(vec![1, 2, 3]), 70);
    assert_eq!(out.reply, Some(OutFrame::Pong(vec![1, 2, 3])));
    assert!(!out.disconnect);
}

#[test]
fn close_and_teardown_uncount_once() {
    let mut store = ServerState::new(0);
    let mut a = Session::connecting();
    let mut b = Session::connecting();
    a.activate(&mut store, 1);
    b.activate(&mut store, 1);
    assert_eq!(store.status.connected_clients, 2);

    let out = a.handle_frame(&mut store, Frame::Close, 80);
    assert!(out.disconnect);
    assert_eq!(a.phase, SessionPhase::Closing);
    // the close frame itself does not uncount; the tear-down does
    assert_eq!(store.status.connected_clients, 2);
    a.close(&mut store);
    assert_eq!(a.phase, SessionPhase::Closed);
    assert_eq!(store.status.connected_clients, 1);

    let out = b.handle_frame(&mut store, Frame::ReadError, 81);
    assert!(out.disconnect);
    b.close(&mut store);
    assert_eq!(store.status.connected_clients, 0);
}

#[test]
fn browser_register_is_informational_only() {
    let mut store = ServerState::new(0);
    let mut s = Session::connecting();
    s.activate(&mut store, 1);
    let before = store.status.clone();
    let out = s.handle_frame(
        &mut store,
        Frame::Text(b"{\"type\":\"browser-register\"}".to_vec()),
        90,
    );
    assert!(out.reply.is_none());
    assert!(out.broadcast.is_none());
    assert_eq!(out.event, None);
    assert_eq!(store.status, before);
}

#[test]
fn host_push_replaces_and_broadcasts() {
    let mut store = ServerState::new(0);
    store.increment_clients();
    let payload = update_status(&mut store, pushed_status(), 123);
    assert_eq!(store.status.connected_clients, 1);
    assert_eq!(store.status.project_name, b"Live Set".to_vec());
    assert_eq!(payload, render_status(&store.read(123)));
}
