//! The command dispatcher.
//!
//! A validated command maps to at most one named application event; the
//! embedding application delivers the event to the host.  The mapping is
//! pure: it neither reads nor writes the status store, and an unrecognized
//! or invalid command maps to no event at all.

use vstd::prelude::*;
use crate::json::{JsonValue, JsonView};
use crate::text::{eq_lit, lit_bytes};

verus! {

/// A remote command: a name from the closed vocabulary, an optional JSON
/// value, and the sender's timestamp.
#[derive(Debug, Clone, PartialEq)]
pub struct RemoteCommand {
    /// The bytes of the command name (the wire field `type`).
    pub command_type: Vec<u8>,
    pub value: Option<JsonValue>,
    pub timestamp: i64,
}

/// Mathematical model of a command.
pub ghost struct CommandView {
    pub command_type: Seq<u8>,
    pub value: Option<JsonView>,
    pub timestamp: int,
}

impl View for RemoteCommand {
    type V = CommandView;

    open spec fn view(&self) -> CommandView {
        CommandView {
            command_type: self.command_type@,
            value: match self.value {
                Some(v) => Some(v@),
                None => None,
            },
            timestamp: self.timestamp as int,
        }
    }
}

/// An event for the host application, with its payload where one exists.
/// Speeds and positions are in thousandths, as everywhere in this crate.
#[derive(Debug, Clone, PartialEq, Eq, Structural)]
pub enum AppEvent {
    Play,
    Pause,
    Stop,
    NextSegment,
    PrevSegment,
    SetSpeed(i64),
    ToggleMirror,
    ResetPosition,
    GoLive,
    ExitLive,
    Seek(i64),
}

/// A speed forced into the playable range [0.5, 2.0], in thousandths.
pub open spec fn spec_clamp_speed(v: int) -> int {
    if v < 500 {
        500
    } else if v > 2000 {
        2000
    } else {
        v
    }
}

/// The event a command maps to, or `None` for a command that is dropped:
/// an unknown name, or a `set_speed`/`seek` whose value is missing or not a
/// number.
pub open spec fn spec_dispatch(c: CommandView) -> Option<AppEvent> {
    let n = c.command_type;
    if n == lit_bytes("play"@) {
        Some(AppEvent::Play)
    } else if n == lit_bytes("pause"@) {
        Some(AppEvent::Pause)
    } else if n == lit_bytes("stop"@) {
        Some(AppEvent::Stop)
    } else if n == lit_bytes("next_segment"@) {
        Some(AppEvent::NextSegment)
    } else if n == lit_bytes("prev_segment"@) {
        Some(AppEvent::PrevSegment)
    } else if n == lit_bytes("set_speed"@) {
        match c.value {
            Some(JsonView::Num(v)) => Some(AppEvent::SetSpeed(spec_clamp_speed(v) as i64)),
            _ => None,
        }
    } else if n == lit_bytes("toggle_mirror"@) {
        Some(AppEvent::ToggleMirror)
    } else if n == lit_bytes("reset_position"@) {
        Some(AppEvent::ResetPosition)
    } else if n == lit_bytes("go_live"@) {
        Some(AppEvent::GoLive)
    } else if n == lit_bytes("exit_live"@) {
        Some(AppEvent::ExitLive)
    } else if n == lit_bytes("seek"@) {
        match c.value {
            Some(JsonView::Num(v)) => Some(AppEvent::Seek(v as i64)),
            _ => None,
        }
    } else {
        None
    }
}

/// Force a speed into the playable range, in thousandths.
pub fn clamp_speed(v: i64) -> (r: i64)
    ensures
        r as int == spec_clamp_speed(v as int),
{
    if v < 500 {
        500
    } else if v > 2000 {
        2000
    } else {
        v
    }
}

/// Translate a command into its application event, or into nothing for a
/// command that the rules of the protocol drop.
pub fn dispatch(cmd: &RemoteCommand) -> (r: Option<AppEvent>)
    ensures
        r == spec_dispatch(cmd@),
{
    proof {
        reveal_strlit("play");
        reveal_strlit("pause");
        reveal_strlit("stop");
        reveal_strlit("next_segment");
        reveal_strlit("prev_segment");
        reveal_strlit("set_speed");
        reveal_strlit("toggle_mirror");
        reveal_strlit("reset_position");
        reveal_strlit("go_live");
        reveal_strlit("exit_live");
        reveal_strlit("seek");
    }
    let n: &Vec<u8> = &cmd.command_type;
    if eq_lit(n.as_slice(), "play") {
        Some(AppEvent::Play)
    } else if eq_lit(n.as_slice(), "pause") {
        Some(AppEvent::Pause)
    } else if eq_lit(n.as_slice(), "stop") {
        Some(AppEvent::Stop)
    } else if eq_lit(n.as_slice(), "next_segment") {
        Some(AppEvent::NextSegment)
    } else if eq_lit(n.as_slice(), "prev_segment") {
        Some(AppEvent::PrevSegment)
    } else if eq_lit(n.as_slice(), "set_speed") {
        match &cmd.value {
            Some(JsonValue::Num(v)) => Some(AppEvent::SetSpeed(clamp_speed(*v))),
            _ => None,
        }
    } else if eq_lit(n.as_slice(), "toggle_mirror") {
        Some(AppEvent::ToggleMirror)
    } else if eq_lit(n.as_slice(), "reset_position") {
        Some(AppEvent::ResetPosition)
    } else if eq_lit(n.as_slice(), "go_live") {
        Some(AppEvent::GoLive)
    } else if eq_lit(n.as_slice(), "exit_live") {
        Some(AppEvent::ExitLive)
    } else if eq_lit(n.as_slice(), "seek") {
        match &cmd.value {
            Some(JsonValue::Num(v)) => Some(AppEvent::Seek(*v)),
            _ => None,
        }
    } else {
        None
    }
}

/// The host-side name of an event.
pub open spec fn spec_event_name(ev: AppEvent) -> Seq<char> {
    match ev {
        AppEvent::Play => "remote-play"@,
        AppEvent::Pause => "remote-pause"@,
        AppEvent::Stop => "remote-stop"@,
        AppEvent::NextSegment => "remote-next-segment"@,
        AppEvent::PrevSegment => "remote-prev-segment"@,
        AppEvent::SetSpeed(_) => "remote-set-speed"@,
        AppEvent::ToggleMirror => "remote-toggle-mirror"@,
        AppEvent::ResetPosition => "remote-reset-position"@,
        AppEvent::GoLive => "remote-go-live"@,
        AppEvent::ExitLive => "remote-exit-live"@,
        AppEvent::Seek(_) => "remote-seek"@,
    }
}

/// The name under which an event is emitted to the host application.
pub fn event_name(ev: &AppEvent) -> (r: &'static str)
    ensures
        r@ == spec_event_name(*ev),
{
    match ev {
        AppEvent::Play => "remote-play",
        AppEvent::Pause => "remote-pause",
        AppEvent::Stop => "remote-stop",
        AppEvent::NextSegment => "remote-next-segment",
        AppEvent::PrevSegment => "remote-prev-segment",
        AppEvent::SetSpeed(_) => "remote-set-speed",
        AppEvent::ToggleMirror => "remote-toggle-mirror",
        AppEvent::ResetPosition => "remote-reset-position",
        AppEvent::GoLive => "remote-go-live",
        AppEvent::ExitLive => "remote-exit-live",
        AppEvent::Seek(_) => "remote-seek",
    }
}

} // verus!
