//! The per-connection session state machine.
//!
//! The gateway runs one session per WebSocket connection.  The embedding
//! application owns the socket, the tasks and the channels; this module owns
//! every decision: what joining does to the store, what each inbound frame
//! means, what goes back on the direct queue, what goes out on the broadcast
//! channel, and when the connection is over.
//!
//! A session is born `Connecting`; the handshake makes it `Active`, counts
//! it, and sends the snapshot of that moment — before any broadcast can
//! reach the new client.  A close frame or a read error makes it `Closing`;
//! the tear-down makes it `Closed` and uncounts it exactly once.

use vstd::prelude::*;
use crate::codec::{render_status, spec_ser_status};
use crate::command::{dispatch, spec_dispatch, AppEvent};
use crate::message::{parse_message, spec_message, IncomingMessage, IncomingView};
use crate::status::{spec_connect, spec_disconnect, spec_replaced, spec_with_timestamp, ServerState, StatusView};

verus! {

/// Where a session stands.
#[derive(Debug, Clone, Copy, PartialEq, Eq, Structural)]
pub enum SessionPhase {
    Connecting,
    Active,
    Closing,
    Closed,
}

/// One WebSocket session, from handshake to tear-down.
#[derive(Debug, Clone, Copy, PartialEq, Eq, Structural)]
pub struct Session {
    pub phase: SessionPhase,
}

/// An inbound frame, as the transport hands it over.
#[derive(Debug, Clone, PartialEq)]
pub enum Frame {
    /// A text frame: the bytes of its payload.
    Text(Vec<u8>),
    /// A ping frame: answered in kind.
    Ping(Vec<u8>),
    /// The peer closed the connection.
    Close,
    /// The read side failed; the connection is torn down.
    ReadError,
    /// Any other frame: ignored.
    Other,
}

/// Mathematical model of an inbound frame.
pub ghost enum FrameView {
    Text(Seq<u8>),
    Ping(Seq<u8>),
    Close,
    ReadError,
    Other,
}

impl View for Frame {
    type V = FrameView;

    open spec fn view(&self) -> FrameView {
        match self {
            Frame::Text(t) => FrameView::Text(t@),
            Frame::Ping(d) => FrameView::Ping(d@),
            Frame::Close => FrameView::Close,
            Frame::ReadError => FrameView::ReadError,
            Frame::Other => FrameView::Other,
        }
    }
}

/// A frame to this one client, on its direct queue.
#[derive(Debug, Clone, PartialEq)]
pub enum OutFrame {
    Text(Vec<u8>),
    Pong(Vec<u8>),
}

/// Mathematical model of a direct-queue frame.
pub ghost enum OutFrameView {
    Text(Seq<u8>),
    Pong(Seq<u8>),
}

impl View for OutFrame {
    type V = OutFrameView;

    open spec fn view(&self) -> OutFrameView {
        match self {
            OutFrame::Text(t) => OutFrameView::Text(t@),
            OutFrame::Pong(d) => OutFrameView::Pong(d@),
        }
    }
}

/// Everything one inbound frame asks the embedding application to do.
pub struct SessionOutput {
    /// For this client alone, on its direct queue.
    pub reply: Option<OutFrame>,
    /// For every subscribed client, on the broadcast channel.
    pub broadcast: Option<Vec<u8>>,
    /// For the host application's event bus.
    pub event: Option<AppEvent>,
    /// The connection is over: cancel this session's writer, then tear down.
    pub disconnect: bool,
}

/// Mathematical model of a session step's output.
pub ghost struct SessionOutputView {
    pub reply: Option<OutFrameView>,
    pub broadcast: Option<Seq<u8>>,
    pub event: Option<AppEvent>,
    pub disconnect: bool,
}

impl View for SessionOutput {
    type V = SessionOutputView;

    open spec fn view(&self) -> SessionOutputView {
        SessionOutputView {
            reply: match self.reply {
                Some(ref f) => Some(f@),
                None => None,
            },
            broadcast: match self.broadcast {
                Some(ref b) => Some(b@),
                None => None,
            },
            event: self.event,
            disconnect: self.disconnect,
        }
    }
}

/// A step that does nothing.
pub open spec fn spec_quiet() -> SessionOutputView {
    SessionOutputView { reply: None, broadcast: None, event: None, disconnect: false }
}

/// What one inbound frame does, given the store's status `cur` and the
/// clock `now`: the store's next status and the outputs.
pub open spec fn spec_step(cur: StatusView, f: FrameView, now: int) -> (StatusView, SessionOutputView) {
    match f {
        FrameView::Text(t) => match spec_message(t) {
            IncomingView::BrowserRegister => (cur, spec_quiet()),
            IncomingView::StatusSync(sv) => {
                let next = spec_replaced(cur, sv);
                (
                    next,
                    SessionOutputView {
                        reply: None,
                        broadcast: Some(spec_ser_status(spec_with_timestamp(next, now))),
                        event: None,
                        disconnect: false,
                    },
                )
            },
            IncomingView::Command(c) => (
                cur,
                SessionOutputView {
                    reply: Some(
                        OutFrameView::Text(spec_ser_status(spec_with_timestamp(cur, now))),
                    ),
                    broadcast: None,
                    event: spec_dispatch(c),
                    disconnect: false,
                },
            ),
            IncomingView::Malformed => (cur, spec_quiet()),
        },
        FrameView::Ping(d) => (
            cur,
            SessionOutputView {
                reply: Some(OutFrameView::Pong(d)),
                broadcast: None,
                event: None,
                disconnect: false,
            },
        ),
        FrameView::Close => (
            cur,
            SessionOutputView { reply: None, broadcast: None, event: None, disconnect: true },
        ),
        FrameView::ReadError => (
            cur,
            SessionOutputView { reply: None, broadcast: None, event: None, disconnect: true },
        ),
        FrameView::Other => (cur, spec_quiet()),
    }
}

impl Session {
    /// A connection whose handshake has not finished yet.
    pub fn connecting() -> (r: Session)
        ensures
            r.phase == SessionPhase::Connecting,
    {
        Session { phase: SessionPhase::Connecting }
    }

    /// The handshake succeeded: count the client and hand back the message
    /// it must receive first — the snapshot of this very moment, stamped
    /// `now_ms`, with the client itself already counted.
    pub fn activate(&mut self, store: &mut ServerState, now_ms: i64) -> (first: Vec<u8>)
        requires
            old(self).phase == SessionPhase::Connecting,
        ensures
            final(self).phase == SessionPhase::Active,
            final(store).status@ == (StatusView {
                connected_clients: spec_connect(old(store).status@.connected_clients),
                ..old(store).status@
            }),
            first@ == spec_ser_status(spec_with_timestamp(final(store).status@, now_ms as int)),
    {
        store.increment_clients();
        self.phase = SessionPhase::Active;
        let snap = store.read(now_ms);
        render_status(&snap)
    }

    /// One inbound frame, while the session is active.
    pub fn handle_frame(&mut self, store: &mut ServerState, frame: Frame, now_ms: i64) -> (r:
        SessionOutput)
        requires
            old(self).phase == SessionPhase::Active,
        ensures
            final(store).status@ == spec_step(old(store).status@, frame@, now_ms as int).0,
            r@ == spec_step(old(store).status@, frame@, now_ms as int).1,
            final(self).phase == (if r@.disconnect {
                SessionPhase::Closing
            } else {
                SessionPhase::Active
            }),
    {
        match frame {
            Frame::Text(t) => {
                match parse_message(t.as_slice()) {
                    IncomingMessage::BrowserRegister => SessionOutput {
                        reply: None,
                        broadcast: None,
                        event: None,
                        disconnect: false,
                    },
                    IncomingMessage::StatusSync { status } => {
                        store.replace(status);
                        let snap = store.read(now_ms);
                        SessionOutput {
                            reply: None,
                            broadcast: Some(render_status(&snap)),
                            event: None,
                            disconnect: false,
                        }
                    },
                    IncomingMessage::Command(c) => {
                        let ev = dispatch(&c);
                        let snap = store.read(now_ms);
                        SessionOutput {
                            reply: Some(OutFrame::Text(render_status(&snap))),
                            broadcast: None,
                            event: ev,
                            disconnect: false,
                        }
                    },
                    IncomingMessage::Malformed => SessionOutput {
                        reply: None,
                        broadcast: None,
                        event: None,
                        disconnect: false,
                    },
                }
            },
            Frame::Ping(d) => SessionOutput {
                reply: Some(OutFrame::Pong(d)),
                broadcast: None,
                event: None,
                disconnect: false,
            },
            Frame::Close => {
                self.phase = SessionPhase::Closing;
                SessionOutput { reply: None, broadcast: None, event: None, disconnect: true }
            },
            Frame::ReadError => {
                self.phase = SessionPhase::Closing;
                SessionOutput { reply: None, broadcast: None, event: None, disconnect: true }
            },
            Frame::Other => SessionOutput {
                reply: None,
                broadcast: None,
                event: None,
                disconnect: false,
            },
        }
    }

    /// Tear the session down: uncount the client, exactly once.
    pub fn close(&mut self, store: &mut ServerState)
        requires
            old(self).phase != SessionPhase::Closed,
        ensures
            final(self).phase == SessionPhase::Closed,
            final(store).status@ == (StatusView {
                connected_clients: spec_disconnect(old(store).status@.connected_clients),
                ..old(store).status@
            }),
    {
        store.decrement_clients();
        self.phase = SessionPhase::Closed;
    }
}

/// The host application pushed a fresh snapshot (the same replacement a
/// `status-sync` frame performs): the store is overwritten — its own client
/// count kept — and the bytes every subscribed client must receive come
/// back.
pub fn update_status(store: &mut ServerState, new_status: crate::status::RemoteStatus, now_ms: i64) -> (r: Vec<u8>)
    ensures
        final(store).status@ == spec_replaced(old(store).status@, new_status@),
        r@ == spec_ser_status(spec_with_timestamp(final(store).status@, now_ms as int)),
{
    store.replace(new_status);
    let snap = store.read(now_ms);
    render_status(&snap)
}

} // verus!
