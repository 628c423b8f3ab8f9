use remote_session::status::{RemoteStatus, ServerState};

fn sample_status(clients: u64) -> RemoteStatus {
    RemoteStatus {
        is_playing: true,
        current_speed_milli: 1500,
        current_segment: Some(3),
        total_segments: 9,
        project_name: b"My Show".to_vec(),
        timestamp: 4200,
        connected_clients: clients,
        is_live: true,
    }
}

#[test]
fn initial_status_defaults() {
    let st = RemoteStatus::initial(77);
    assert_eq!(st.is_playing, false);
    assert_eq!(st.current_speed_milli, 1000);
    assert_eq!(st.current_segment, Some(0));
    assert_eq!(st.total_segments, 1);
    assert_eq!(st.project_name, b"Untitled Project".to_vec());
    assert_eq!(st.timestamp, 77);
    assert_eq!(st.connected_clients, 0);
    assert_eq!(st.is_live, false);
}

#[test]
fn read_refreshes_timestamp_only() {
    let store = ServerState::new(1);
    let snap = store.read(99);
    assert_eq!(snap.timestamp, 99);
    assert_eq!(store.status.timestamp, 1);
    assert_eq!(snap.project_name, store.status.project_name);
    assert_eq!(snap.connected_clients, 0);
}

#[test]
fn replace_keeps_gateway_client_count() {
    let mut store = ServerState::new(0);
    store.increment_clients();
    store.increment_clients();
    // the peer claims 999 clients; the store knows better
    store.replace(sample_status(999));
    assert_eq!(store.status.connected_clients, 2);
    assert_eq!(store.status.project_name, b"My Show".to_vec());
    assert_eq!(store.status.current_speed_milli, 1500);
    assert_eq!(store.status.is_playing, true);
    assert_eq!(store.status.is_live, true);
    assert_eq!(store.status.timestamp, 4200);
    assert_eq!(store.status.current_segment, Some(3));
    assert_eq!(store.status.total_segments, 9);
}

#[test]
fn connects_then_disconnects_count_exactly() {
    let mut store = ServerState::new(0);
    for _ in 0..5 {
        store.increment_clients();
    }
    for _ in 0..3 {
        store.decrement_clients();
    }
    assert_eq!(store.status.connected_clients, 2);
}

#[test]
fn duplicate_disconnect_floors_at_zero() {
    let mut store = ServerState::new(0);
    store.increment_clients();
    store.decrement_clients();
    store.decrement_clients();
    store.decrement_clients();
    assert_eq!(store.status.connected_clients, 0);
    store.increment_clients();
    assert_eq!(store.status.connected_clients, 1);
}

#[test]
fn clock_stamped_constructors_use_the_defaults() {
    let st = remote_session::status::RemoteStatus::initial_now();
    assert_eq!(st.project_name, b"Untitled Project".to_vec());
    assert_eq!(st.connected_clients, 0);
    let store = remote_session::status::ServerState::new_now();
    let snap = store.read_now();
    assert_eq!(snap.current_speed_milli, 1000);
    assert_eq!(snap.connected_clients, 0);
    // the clock moves forward: a fresh reading is no older than creation
    assert!(snap.timestamp >= store.status.timestamp);
}
