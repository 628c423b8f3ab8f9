//! Laws of the protocol, proved once and for all inputs.
//!
//! Each lemma here states a guarantee of the server as a whole, over the
//! same spec functions the executable contracts use.

use vstd::prelude::*;
use crate::command::{spec_clamp_speed, spec_dispatch, AppEvent, CommandView};
use crate::json::JsonView;
use crate::message::IncomingView;
use crate::session::{spec_step, FrameView};
use crate::status::{spec_connect, spec_disconnect, spec_replaced, StatusView};
use crate::text::lit_bytes;

verus! {

/// A `set_speed` command with a numeric value always maps to a speed event,
/// and the speed it carries is the value forced into the playable range:
/// in thousandths, `min(max(v, 500), 2000)`.
pub proof fn lemma_set_speed_clamped(c: CommandView, v: int)
    requires
        c.command_type == lit_bytes("set_speed"@),
        c.value == Some(JsonView::Num(v)),
    ensures
        spec_dispatch(c) == Some(AppEvent::SetSpeed(spec_clamp_speed(v) as i64)),
        spec_clamp_speed(v) == if v < 500 {
            500int
        } else if v > 2000 {
            2000int
        } else {
            v
        },
        500 <= spec_clamp_speed(v) <= 2000,
{
    reveal_strlit("play");
    reveal_strlit("pause");
    reveal_strlit("stop");
    reveal_strlit("next_segment");
    reveal_strlit("prev_segment");
    reveal_strlit("set_speed");
    assert(lit_bytes("set_speed"@).len() == 9);
    assert(lit_bytes("play"@).len() == 4);
    assert(lit_bytes("pause"@).len() == 5);
    assert(lit_bytes("stop"@).len() == 4);
    assert(lit_bytes("next_segment"@).len() == 12);
    assert(lit_bytes("prev_segment"@).len() == 12);
}

/// `c` clients after `n` more connections.
pub open spec fn spec_connects(c: int, n: nat) -> int
    decreases n,
{
    if n == 0 {
        c
    } else {
        spec_connect(spec_connects(c, (n - 1) as nat))
    }
}

/// `c` clients after `m` disconnections.
pub open spec fn spec_disconnects(c: int, m: nat) -> int
    decreases m,
{
    if m == 0 {
        c
    } else {
        spec_disconnect(spec_disconnects(c, (m - 1) as nat))
    }
}

proof fn lemma_connects_exact(n: nat)
    requires
        n <= u64::MAX,
    ensures
        spec_connects(0, n) == n,
    decreases n,
{
    if n > 0 {
        lemma_connects_exact((n - 1) as nat);
    }
}

proof fn lemma_disconnects_exact(c: int, m: nat)
    requires
        m <= c,
    ensures
        spec_disconnects(c, m) == c - m,
    decreases m,
{
    if m > 0 {
        lemma_disconnects_exact(c, (m - 1) as nat);
    }
}

/// `n` connections followed by `m <= n` disconnections leave the client
/// count at exactly `n - m`.
pub proof fn lemma_client_count(n: nat, m: nat)
    requires
        m <= n,
        n <= u64::MAX,
    ensures
        spec_disconnects(spec_connects(0, n), m) == n - m,
{
    lemma_connects_exact(n);
    lemma_disconnects_exact(n as int, m);
}

/// Connections and disconnections applied in any order: `true` counts a
/// client, `false` uncounts one.
pub open spec fn spec_apply_arrivals(c: int, ops: Seq<bool>) -> int
    decreases ops.len(),
{
    if ops.len() == 0 {
        c
    } else {
        spec_apply_arrivals(
            if ops[0] {
                spec_connect(c)
            } else {
                spec_disconnect(c)
            },
            ops.drop_first(),
        )
    }
}

/// Whatever order connections and disconnections come in — a duplicate
/// disconnect included — the client count never goes below zero.
pub proof fn lemma_count_never_negative(c: int, ops: Seq<bool>)
    requires
        c >= 0,
    ensures
        spec_apply_arrivals(c, ops) >= 0,
    decreases ops.len(),
{
    if ops.len() > 0 {
        lemma_count_never_negative(
            if ops[0] {
                spec_connect(c)
            } else {
                spec_disconnect(c)
            },
            ops.drop_first(),
        );
    }
}

/// A status replacement pushed by a peer can claim any client count — the
/// store's own count still stands afterwards, while every other field is
/// taken from the peer's snapshot.
pub proof fn lemma_sync_keeps_client_count(cur: StatusView, incoming: StatusView)
    ensures
        spec_replaced(cur, incoming).connected_clients == cur.connected_clients,
        spec_replaced(cur, incoming).is_playing == incoming.is_playing,
        spec_replaced(cur, incoming).current_speed_milli == incoming.current_speed_milli,
        spec_replaced(cur, incoming).current_segment == incoming.current_segment,
        spec_replaced(cur, incoming).total_segments == incoming.total_segments,
        spec_replaced(cur, incoming).project_name == incoming.project_name,
        spec_replaced(cur, incoming).timestamp == incoming.timestamp,
        spec_replaced(cur, incoming).is_live == incoming.is_live,
{
}

/// A command whose name is outside the closed vocabulary maps to no event
/// at all.
pub proof fn lemma_unknown_command_dropped(c: CommandView)
    requires
        c.command_type != lit_bytes("play"@),
        c.command_type != lit_bytes("pause"@),
        c.command_type != lit_bytes("stop"@),
        c.command_type != lit_bytes("next_segment"@),
        c.command_type != lit_bytes("prev_segment"@),
        c.command_type != lit_bytes("set_speed"@),
        c.command_type != lit_bytes("toggle_mirror"@),
        c.command_type != lit_bytes("reset_position"@),
        c.command_type != lit_bytes("go_live"@),
        c.command_type != lit_bytes("exit_live"@),
        c.command_type != lit_bytes("seek"@),
    ensures
        spec_dispatch(c) is None,
{
}

/// A text frame that reads as a command — whether it maps to an event or
/// is dropped — never changes the status and never closes the connection.
pub proof fn lemma_command_frame_keeps_status(cur: StatusView, t: Seq<u8>, now: int)
    requires
        crate::message::spec_message(t) is Command,
    ensures
        spec_step(cur, FrameView::Text(t), now).0 == cur,
        !spec_step(cur, FrameView::Text(t), now).1.disconnect,
        spec_step(cur, FrameView::Text(t), now).1.broadcast is None,
{
    let m = crate::message::spec_message(t);
    if m is Command {
        assert(spec_step(cur, FrameView::Text(t), now).0 == cur);
    }
}

} // verus!
