//! The shared status record and its store.
//!
//! One `ServerState` exists per server; both listeners hand out references to
//! it.  Every mutation goes through `replace`, `increment_clients` or
//! `decrement_clients`, so the embedding application only has to serialize
//! the calls (it keeps the state behind one lock) and the contracts here
//! describe each atomic transition.

use vstd::prelude::*;

verus! {

/// The playback/session snapshot shared with every remote client.
///
/// The playback speed is held in thousandths (`1000` is normal speed), so the
/// whole record is made of plain integers; `project_name` holds the UTF-8
/// bytes of the name.
#[derive(Debug, Clone, PartialEq)]
pub struct RemoteStatus {
    pub is_playing: bool,
    pub current_speed_milli: i64,
    pub current_segment: Option<u64>,
    pub total_segments: u64,
    pub project_name: Vec<u8>,
    pub timestamp: i64,
    pub connected_clients: u64,
    pub is_live: bool,
}

/// Mathematical model of a status snapshot.
pub ghost struct StatusView {
    pub is_playing: bool,
    pub current_speed_milli: int,
    pub current_segment: Option<int>,
    pub total_segments: int,
    pub project_name: Seq<u8>,
    pub timestamp: int,
    pub connected_clients: int,
    pub is_live: bool,
}

impl View for RemoteStatus {
    type V = StatusView;

    open spec fn view(&self) -> StatusView {
        StatusView {
            is_playing: self.is_playing,
            current_speed_milli: self.current_speed_milli as int,
            current_segment: match self.current_segment {
                Some(s) => Some(s as int),
                None => None,
            },
            total_segments: self.total_segments as int,
            project_name: self.project_name@,
            timestamp: self.timestamp as int,
            connected_clients: self.connected_clients as int,
            is_live: self.is_live,
        }
    }
}

/// The project name a fresh server starts with.
pub open spec fn spec_default_project_name() -> Seq<u8> {
    vstd::utf8::encode_utf8("Untitled Project"@)
}

/// The snapshot a fresh server starts with, stamped `now_ms`.
pub open spec fn spec_initial_status(now_ms: int) -> StatusView {
    StatusView {
        is_playing: false,
        current_speed_milli: 1000,
        current_segment: Some(0),
        total_segments: 1,
        project_name: spec_default_project_name(),
        timestamp: now_ms,
        connected_clients: 0,
        is_live: false,
    }
}

/// `st` with its timestamp refreshed to `ts`.
pub open spec fn spec_with_timestamp(st: StatusView, ts: int) -> StatusView {
    StatusView { timestamp: ts, ..st }
}

/// `incoming` as accepted by the store: every field is taken from the remote
/// snapshot except `connected_clients`, which only the gateway may change.
pub open spec fn spec_replaced(cur: StatusView, incoming: StatusView) -> StatusView {
    StatusView { connected_clients: cur.connected_clients, ..incoming }
}

/// The client count after one more connection: it sticks at `u64::MAX`
/// rather than wrap.
pub open spec fn spec_connect(c: int) -> int {
    if c < u64::MAX {
        c + 1
    } else {
        c
    }
}

/// The client count after one disconnection: it floors at zero, so even a
/// duplicate disconnect can never make it underflow.
pub open spec fn spec_disconnect(c: int) -> int {
    if c > 0 {
        c - 1
    } else {
        0
    }
}

impl RemoteStatus {
    /// The snapshot a fresh server starts with.
    pub fn initial(now_ms: i64) -> (r: RemoteStatus)
        ensures
            r@ == spec_initial_status(now_ms as int),
    {
        proof {
            reveal_strlit("Untitled Project");
        }
        let name: Vec<u8> = vstd::slice::slice_to_vec("Untitled Project".as_bytes());
        RemoteStatus {
            is_playing: false,
            current_speed_milli: 1000,
            current_segment: Some(0),
            total_segments: 1,
            project_name: name,
            timestamp: now_ms,
            connected_clients: 0,
            is_live: false,
        }
    }

    /// A field-for-field copy of this snapshot.
    pub fn snapshot(&self) -> (r: RemoteStatus)
        ensures
            r@ == self@,
    {
        RemoteStatus {
            is_playing: self.is_playing,
            current_speed_milli: self.current_speed_milli,
            current_segment: self.current_segment,
            total_segments: self.total_segments,
            project_name: self.project_name.clone(),
            timestamp: self.timestamp,
            connected_clients: self.connected_clients,
            is_live: self.is_live,
        }
    }
}

/// The single shared mutable record of the session.
#[derive(Debug, Clone)]
pub struct ServerState {
    pub status: RemoteStatus,
}

impl ServerState {
    /// A fresh store with the default snapshot, stamped `now_ms`.
    pub fn new(now_ms: i64) -> (r: ServerState)
        ensures
            r.status@ == spec_initial_status(now_ms as int),
    {
        ServerState { status: RemoteStatus::initial(now_ms) }
    }

    /// A snapshot of the current status with the timestamp refreshed.
    pub fn read(&self, now_ms: i64) -> (r: RemoteStatus)
        ensures
            r@ == spec_with_timestamp(self.status@, now_ms as int),
    {
        let mut r = self.status.snapshot();
        r.timestamp = now_ms;
        r
    }

    /// Overwrite the status with a remote snapshot, keeping this server's own
    /// client count: a peer can never change `connected_clients`.
    pub fn replace(&mut self, incoming: RemoteStatus)
        ensures
            final(self).status@ == spec_replaced(old(self).status@, incoming@),
    {
        let kept: u64 = self.status.connected_clients;
        self.status = incoming;
        self.status.connected_clients = kept;
    }

    /// One more live WebSocket session.  The count sticks at `u64::MAX`
    /// rather than wrap.
    pub fn increment_clients(&mut self)
        ensures
            final(self).status@ == (StatusView {
                connected_clients: spec_connect(old(self).status@.connected_clients),
                ..old(self).status@
            }),
    {
        if self.status.connected_clients < u64::MAX {
            self.status.connected_clients = self.status.connected_clients + 1;
        }
    }

    /// One live WebSocket session fewer.  The count floors at zero, so even a
    /// duplicate disconnect can never make it underflow.
    pub fn decrement_clients(&mut self)
        ensures
            final(self).status@ == (StatusView {
                connected_clients: spec_disconnect(old(self).status@.connected_clients),
                ..old(self).status@
            }),
    {
        if self.status.connected_clients > 0 {
            self.status.connected_clients = self.status.connected_clients - 1;
        }
    }
}

} // verus!
