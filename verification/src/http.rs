//! The compute side of the HTTP control surface.
//!
//! The HTTP framework and the sockets live in the embedding application;
//! these functions decide what each endpoint answers.  `GET /status` renders
//! the snapshot with a fresh timestamp; `POST /command` reads the body as a
//! command, dispatches it, and always answers the fixed acknowledgement
//! envelope once the body parses — a dropped command is a server-side
//! warning, never a client-visible error.  Neither endpoint touches the
//! client count or the broadcast channel.

use vstd::prelude::*;
use crate::codec::{render_ack, render_status, spec_ser_ack, spec_ser_status};
use crate::command::{dispatch, spec_dispatch, AppEvent};
use crate::message::{parse_http_command, spec_http_command};
use crate::status::{spec_with_timestamp, ServerState};

verus! {

/// The `GET /status` body: the snapshot, timestamp refreshed to `now_ms`.
pub fn http_status(store: &ServerState, now_ms: i64) -> (r: Vec<u8>)
    ensures
        r@ == spec_ser_status(spec_with_timestamp(store.status@, now_ms as int)),
{
    let snap = store.read(now_ms);
    render_status(&snap)
}

/// `POST /command`: the event to emit (if the command survives validation)
/// and the acknowledgement body, or `None` for a body that is no command at
/// all — the framework then rejects the request before any dispatch.
pub fn http_command(body: &[u8], now_ms: i64) -> (r: Option<(Option<AppEvent>, Vec<u8>)>)
    ensures
        match spec_http_command(body@) {
            Some(c) => r matches Some(p) && p.0 == spec_dispatch(c) && p.1@ == spec_ser_ack(
                c.command_type,
                now_ms as int,
            ),
            None => r is None,
        },
{
    match parse_http_command(body) {
        Some(cmd) => {
            let ev = dispatch(&cmd);
            let ack = render_ack(cmd.command_type.as_slice(), now_ms);
            Some((ev, ack))
        },
        None => None,
    }
}

} // verus!
