//! Inbound message interpretation.
//!
//! Every WebSocket text frame is first read as a tagged envelope: a
//! `browser-register` declaration, a `status-sync` carrying a full status
//! snapshot, or — for any other tag — a plain command.  `POST /command`
//! bodies are read as a command directly.  A frame that fits none of these
//! is `Malformed`: the caller logs it and drops it, and nothing else
//! changes.
//!
//! The grammar is fixed by the spec functions; each executable parser
//! returns exactly what they say.  An object may carry unknown members in
//! any order; a recognized member appearing twice makes the frame
//! malformed; text after the closing brace (beyond whitespace) makes it
//! malformed.

use vstd::prelude::*;
use crate::command::{CommandView, RemoteCommand};
use crate::json::{JsonValue, JsonView};
use crate::parse::{parse_string, parse_value, skip_ws, spec_string, spec_value, spec_ws};
use crate::status::{RemoteStatus, StatusView};
use crate::text::{eq_lit, lit_bytes};

verus! {

/// The members of a status object as they are gathered: `None` is "not seen
/// yet".  `current_segment` nests once more because `null` is a value of it.
pub struct StatusFields {
    pub is_playing: Option<bool>,
    pub current_speed: Option<i64>,
    pub current_segment: Option<Option<u64>>,
    pub total_segments: Option<u64>,
    pub project_name: Option<Vec<u8>>,
    pub timestamp: Option<i64>,
    pub connected_clients: Option<u64>,
    pub is_live: Option<bool>,
}

/// Mathematical model of `StatusFields`.
pub ghost struct StatusFieldsView {
    pub is_playing: Option<bool>,
    pub current_speed: Option<int>,
    pub current_segment: Option<Option<int>>,
    pub total_segments: Option<int>,
    pub project_name: Option<Seq<u8>>,
    pub timestamp: Option<int>,
    pub connected_clients: Option<int>,
    pub is_live: Option<bool>,
}

impl View for StatusFields {
    type V = StatusFieldsView;

    open spec fn view(&self) -> StatusFieldsView {
        StatusFieldsView {
            is_playing: self.is_playing,
            current_speed: match self.current_speed {
                Some(v) => Some(v as int),
                None => None,
            },
            current_segment: match self.current_segment {
                Some(Some(v)) => Some(Some(v as int)),
                Some(None) => Some(None),
                None => None,
            },
            total_segments: match self.total_segments {
                Some(v) => Some(v as int),
                None => None,
            },
            project_name: match self.project_name {
                Some(ref v) => Some(v@),
                None => None,
            },
            timestamp: match self.timestamp {
                Some(v) => Some(v as int),
                None => None,
            },
            connected_clients: match self.connected_clients {
                Some(v) => Some(v as int),
                None => None,
            },
            is_live: self.is_live,
        }
    }
}

/// A number in thousandths taken as a plain integer: its value, if it is
/// whole.  Signs are split off so that division stays on magnitudes.
pub open spec fn spec_whole(m: int) -> Option<int> {
    let mag = if m < 0 {
        -m
    } else {
        m
    };
    if mag % 1000 == 0 {
        Some(
            if m < 0 {
                -(mag / 1000)
            } else {
                mag / 1000
            },
        )
    } else {
        None
    }
}

/// A status member applied to what has been gathered: `None` for a value of
/// the wrong shape or a member seen twice; an unknown member changes
/// nothing.
pub open spec fn spec_status_field(f: StatusFieldsView, key: Seq<u8>, v: JsonView) -> Option<
    StatusFieldsView,
> {
    if key == lit_bytes("is_playing"@) {
        match (f.is_playing, v) {
            (None, JsonView::Bool(b)) => Some(StatusFieldsView { is_playing: Some(b), ..f }),
            _ => None,
        }
    } else if key == lit_bytes("current_speed"@) {
        match (f.current_speed, v) {
            (None, JsonView::Num(m)) => Some(StatusFieldsView { current_speed: Some(m), ..f }),
            _ => None,
        }
    } else if key == lit_bytes("current_segment"@) {
        match (f.current_segment, v) {
            (None, JsonView::Null) => Some(
                StatusFieldsView { current_segment: Some(None), ..f },
            ),
            (None, JsonView::Num(m)) => {
                if m >= 0 && spec_whole(m) is Some {
                    Some(
                        StatusFieldsView {
                            current_segment: Some(Some(spec_whole(m)->Some_0)),
                            ..f
                        },
                    )
                } else {
                    None
                }
            },
            _ => None,
        }
    } else if key == lit_bytes("total_segments"@) {
        match (f.total_segments, v) {
            (None, JsonView::Num(m)) => {
                if m >= 0 && spec_whole(m) is Some {
                    Some(StatusFieldsView { total_segments: Some(spec_whole(m)->Some_0), ..f })
                } else {
                    None
                }
            },
            _ => None,
        }
    } else if key == lit_bytes("project_name"@) {
        match (f.project_name, v) {
            (None, JsonView::Str(q)) => Some(StatusFieldsView { project_name: Some(q), ..f }),
            _ => None,
        }
    } else if key == lit_bytes("timestamp"@) {
        match (f.timestamp, v) {
            (None, JsonView::Num(m)) => {
                if spec_whole(m) is Some {
                    Some(StatusFieldsView { timestamp: Some(spec_whole(m)->Some_0), ..f })
                } else {
                    None
                }
            },
            _ => None,
        }
    } else if key == lit_bytes("connected_clients"@) {
        match (f.connected_clients, v) {
            (None, JsonView::Num(m)) => {
                if m >= 0 && spec_whole(m) is Some {
                    Some(
                        StatusFieldsView { connected_clients: Some(spec_whole(m)->Some_0), ..f },
                    )
                } else {
                    None
                }
            },
            _ => None,
        }
    } else if key == lit_bytes("is_live"@) {
        match (f.is_live, v) {
            (None, JsonView::Bool(b)) => Some(StatusFieldsView { is_live: Some(b), ..f }),
            _ => None,
        }
    } else {
        Some(f)
    }
}

/// The members of a status object from `i` (the first key) to the closing
/// brace, folded over `f`.
pub open spec fn spec_status_members(s: Seq<u8>, i: int, f: StatusFieldsView) -> Option<
    (StatusFieldsView, int),
>
    decreases s.len() - i,
{
    match spec_string(s, i) {
        None => None,
        Some(kp) => {
            let j2 = spec_ws(s, kp.1);
            if !(0 <= j2 < s.len() && s[j2] == 58) {
                None
            } else {
                let j3 = spec_ws(s, j2 + 1);
                match spec_value(s, j3) {
                    None => None,
                    Some(vp) => {
                        match spec_status_field(f, kp.0, vp.0) {
                            None => None,
                            Some(f2) => {
                                let j5 = spec_ws(s, vp.1);
                                if 0 <= j5 < s.len() && s[j5] == 44 {
                                    let j6 = spec_ws(s, j5 + 1);
                                    if j6 > i && j6 <= s.len() {
                                        spec_status_members(s, j6, f2)
                                    } else {
                                        None
                                    }
                                } else if 0 <= j5 < s.len() && s[j5] == 125 {
                                    Some((f2, j5 + 1))
                                } else {
                                    None
                                }
                            },
                        }
                    },
                }
            }
        },
    }
}

/// A gathered status accepted whole: every member present, except that
/// `current_segment` may be absent (it is optional on the wire).
pub open spec fn spec_status_done(f: StatusFieldsView) -> Option<StatusView> {
    if f.is_playing is Some && f.current_speed is Some && f.total_segments is Some
        && f.project_name is Some && f.timestamp is Some && f.connected_clients is Some
        && f.is_live is Some {
        Some(
            StatusView {
                is_playing: f.is_playing->Some_0,
                current_speed_milli: f.current_speed->Some_0,
                current_segment: match f.current_segment {
                    Some(cs) => cs,
                    None => None,
                },
                total_segments: f.total_segments->Some_0,
                project_name: f.project_name->Some_0,
                timestamp: f.timestamp->Some_0,
                connected_clients: f.connected_clients->Some_0,
                is_live: f.is_live->Some_0,
            },
        )
    } else {
        None
    }
}

/// The fields no status has seen yet.
pub open spec fn spec_status_empty() -> StatusFieldsView {
    StatusFieldsView {
        is_playing: None,
        current_speed: None,
        current_segment: None,
        total_segments: None,
        project_name: None,
        timestamp: None,
        connected_clients: None,
        is_live: None,
    }
}

/// A full status object at `i` (which must hold `{`): the snapshot it
/// carries and the position past its closing brace.
pub open spec fn spec_status_obj(s: Seq<u8>, i: int) -> Option<(StatusView, int)> {
    if !(0 <= i < s.len() && s[i] == 123) {
        None
    } else {
        let j = spec_ws(s, i + 1);
        if 0 <= j < s.len() && s[j] == 125 {
            match spec_status_done(spec_status_empty()) {
                Some(st) => Some((st, j + 1)),
                None => None,
            }
        } else {
            match spec_status_members(s, j, spec_status_empty()) {
                Some(p) => {
                    match spec_status_done(p.0) {
                        Some(st) => Some((st, p.1)),
                        None => None,
                    }
                },
                None => None,
            }
        }
    }
}

/// A number in thousandths taken as a plain integer.
fn whole(m: i64) -> (r: Option<i64>)
    ensures
        match spec_whole(m as int) {
            Some(v) => r matches Some(x) && x as int == v,
            None => r is None,
        },
{
    let mag: u64 = if m < 0 {
        if m == i64::MIN {
            9223372036854775808u64
        } else {
            (-m) as u64
        }
    } else {
        m as u64
    };
    if mag % 1000 == 0 {
        let units: u64 = mag / 1000;
        if m < 0 {
            Some(-(units as i64))
        } else {
            Some(units as i64)
        }
    } else {
        None
    }
}

/// Apply one status member to what has been gathered.
fn status_field(f: StatusFields, key: &[u8], v: JsonValue) -> (r: Option<StatusFields>)
    ensures
        match spec_status_field(f@, key@, v@) {
            Some(fv) => r matches Some(g) && g@ == fv,
            None => r is None,
        },
{
    proof {
        reveal_strlit("is_playing");
        reveal_strlit("current_speed");
        reveal_strlit("current_segment");
        reveal_strlit("total_segments");
        reveal_strlit("project_name");
        reveal_strlit("timestamp");
        reveal_strlit("connected_clients");
        reveal_strlit("is_live");
    }
    if eq_lit(key, "is_playing") {
        match (f.is_playing, v) {
            (None, JsonValue::Bool(b)) => Some(StatusFields { is_playing: Some(b), ..f }),
            _ => None,
        }
    } else if eq_lit(key, "current_speed") {
        match (f.current_speed, v) {
            (None, JsonValue::Num(m)) => Some(StatusFields { current_speed: Some(m), ..f }),
            _ => None,
        }
    } else if eq_lit(key, "current_segment") {
        match (f.current_segment, v) {
            (None, JsonValue::Null) => Some(StatusFields { current_segment: Some(None), ..f }),
            (None, JsonValue::Num(m)) => {
                if m >= 0 {
                    match whole(m) {
                        Some(u) => Some(
                            StatusFields { current_segment: Some(Some(u as u64)), ..f },
                        ),
                        None => None,
                    }
                } else {
                    None
                }
            },
            _ => None,
        }
    } else if eq_lit(key, "total_segments") {
        match (f.total_segments, v) {
            (None, JsonValue::Num(m)) => {
                if m >= 0 {
                    match whole(m) {
                        Some(u) => Some(StatusFields { total_segments: Some(u as u64), ..f }),
                        None => None,
                    }
                } else {
                    None
                }
            },
            _ => None,
        }
    } else if eq_lit(key, "project_name") {
        match (f.project_name, v) {
            (None, JsonValue::Str(q)) => Some(StatusFields { project_name: Some(q), ..f }),
            _ => None,
        }
    } else if eq_lit(key, "timestamp") {
        match (f.timestamp, v) {
            (None, JsonValue::Num(m)) => {
                match whole(m) {
                    Some(u) => Some(StatusFields { timestamp: Some(u), ..f }),
                    None => None,
                }
            },
            _ => None,
        }
    } else if eq_lit(key, "connected_clients") {
        match (f.connected_clients, v) {
            (None, JsonValue::Num(m)) => {
                if m >= 0 {
                    match whole(m) {
                        Some(u) => Some(
                            StatusFields { connected_clients: Some(u as u64), ..f },
                        ),
                        None => None,
                    }
                } else {
                    None
                }
            },
            _ => None,
        }
    } else if eq_lit(key, "is_live") {
        match (f.is_live, v) {
            (None, JsonValue::Bool(b)) => Some(StatusFields { is_live: Some(b), ..f }),
            _ => None,
        }
    } else {
        Some(f)
    }
}

/// Read the members of a status object, starting at the first key.
fn status_members(s: &[u8], i: usize, f: StatusFields) -> (r: Option<(StatusFields, usize)>)
    requires
        i <= s@.len(),
    ensures
        match spec_status_members(s@, i as int, f@) {
            Some(p) => r matches Some(q) && q.0@ == p.0 && q.1 as int == p.1 && i < p.1
                <= s@.len(),
            None => r is None,
        },
    decreases s@.len() - i,
{
    let kp = match parse_string(s, i) {
        Some(kp) => kp,
        None => {
            return None;
        },
    };
    let j2 = skip_ws(s, kp.1);
    if !(j2 < s.len() && s[j2] == 58) {
        return None;
    }
    let j3 = skip_ws(s, j2 + 1);
    let vp = match parse_value(s, j3) {
        Some(vp) => vp,
        None => {
            return None;
        },
    };
    let f2 = match status_field(f, kp.0.as_slice(), vp.0) {
        Some(f2) => f2,
        None => {
            return None;
        },
    };
    let j5 = skip_ws(s, vp.1);
    if j5 < s.len() && s[j5] == 44 {
        let j6 = skip_ws(s, j5 + 1);
        if j6 > i {
            status_members(s, j6, f2)
        } else {
            None
        }
    } else if j5 < s.len() && s[j5] == 125 {
        Some((f2, j5 + 1))
    } else {
        None
    }
}

/// A gathered status accepted whole.
fn status_done(f: StatusFields) -> (r: Option<RemoteStatus>)
    ensures
        match spec_status_done(f@) {
            Some(sv) => r matches Some(st) && st@ == sv,
            None => r is None,
        },
{
    match (f.is_playing, f.current_speed, f.total_segments, f.project_name, f.timestamp,
        f.connected_clients, f.is_live) {
        (Some(p), Some(sp), Some(ts), Some(pn), Some(t), Some(cc), Some(l)) => Some(
            RemoteStatus {
                is_playing: p,
                current_speed_milli: sp,
                current_segment: match f.current_segment {
                    Some(cs) => cs,
                    None => None,
                },
                total_segments: ts,
                project_name: pn,
                timestamp: t,
                connected_clients: cc,
                is_live: l,
            },
        ),
        _ => None,
    }
}

/// Read a full status object at `i`.
pub fn parse_status_obj(s: &[u8], i: usize) -> (r: Option<(RemoteStatus, usize)>)
    requires
        i <= s@.len(),
    ensures
        match spec_status_obj(s@, i as int) {
            Some(p) => r matches Some(q) && q.0@ == p.0 && q.1 as int == p.1 && i < p.1
                <= s@.len(),
            None => r is None,
        },
{
    if !(i < s.len() && s[i] == 123) {
        return None;
    }
    let j = skip_ws(s, i + 1);
    if j < s.len() && s[j] == 125 {
        // an empty object misses every required member
        None
    } else {
        let f0 = StatusFields {
            is_playing: None,
            current_speed: None,
            current_segment: None,
            total_segments: None,
            project_name: None,
            timestamp: None,
            connected_clients: None,
            is_live: None,
        };
        match status_members(s, j, f0) {
            Some((f, end)) => {
                match status_done(f) {
                    Some(st) => Some((st, end)),
                    None => None,
                }
            },
            None => None,
        }
    }
}

/// The top-level members of an inbound frame as they are gathered.
/// `ts: Some(None)` records a `timestamp` member that is present but not a
/// whole number; `status: Some(None)` records a `status` member that is
/// well-formed JSON but no status object.
pub struct Gathered {
    pub ty: Option<Vec<u8>>,
    pub value: Option<JsonValue>,
    pub ts: Option<Option<i64>>,
    pub status: Option<Option<RemoteStatus>>,
}

/// Mathematical model of `Gathered`.
pub ghost struct GatheredView {
    pub ty: Option<Seq<u8>>,
    pub value: Option<JsonView>,
    pub ts: Option<Option<int>>,
    pub status: Option<Option<StatusView>>,
}

impl View for Gathered {
    type V = GatheredView;

    open spec fn view(&self) -> GatheredView {
        GatheredView {
            ty: match self.ty {
                Some(ref v) => Some(v@),
                None => None,
            },
            value: match self.value {
                Some(ref v) => Some(v@),
                None => None,
            },
            ts: match self.ts {
                Some(Some(t)) => Some(Some(t as int)),
                Some(None) => Some(None),
                None => None,
            },
            status: match self.status {
                Some(Some(ref st)) => Some(Some(st@)),
                Some(None) => Some(None),
                None => None,
            },
        }
    }
}

/// Nothing gathered yet.
pub open spec fn spec_gathered_empty() -> GatheredView {
    GatheredView { ty: None, value: None, ts: None, status: None }
}

/// One top-level member's value applied to what has been gathered, reading
/// from `i`: the new gathering and the position past the value.  `None`
/// makes the whole frame malformed: unreadable JSON, a repeated member, or
/// a `type` that is no string.
pub open spec fn spec_msg_value(s: Seq<u8>, i: int, g: GatheredView, key: Seq<u8>) -> Option<
    (GatheredView, int),
> {
    if key == lit_bytes("type"@) {
        if g.ty is Some {
            None
        } else {
            match spec_value(s, i) {
                Some(p) => match p.0 {
                    JsonView::Str(q) => Some((GatheredView { ty: Some(q), ..g }, p.1)),
                    _ => None,
                },
                None => None,
            }
        }
    } else if key == lit_bytes("value"@) {
        if g.value is Some {
            None
        } else {
            match spec_value(s, i) {
                Some(p) => Some((GatheredView { value: Some(p.0), ..g }, p.1)),
                None => None,
            }
        }
    } else if key == lit_bytes("timestamp"@) {
        if g.ts is Some {
            None
        } else {
            match spec_value(s, i) {
                Some(p) => match p.0 {
                    JsonView::Num(m) => Some((GatheredView { ts: Some(spec_whole(m)), ..g }, p.1)),
                    _ => Some((GatheredView { ts: Some(None), ..g }, p.1)),
                },
                None => None,
            }
        }
    } else if key == lit_bytes("status"@) {
        if g.status is Some {
            None
        } else {
            match spec_status_obj(s, i) {
                Some(p) => Some((GatheredView { status: Some(Some(p.0)), ..g }, p.1)),
                None => match spec_value(s, i) {
                    Some(p) => Some((GatheredView { status: Some(None), ..g }, p.1)),
                    None => None,
                },
            }
        }
    } else {
        match spec_value(s, i) {
            Some(p) => Some((g, p.1)),
            None => None,
        }
    }
}

/// The top-level members of a frame from `i` (the first key) to the closing
/// brace, folded over `g`.
pub open spec fn spec_msg_members(s: Seq<u8>, i: int, g: GatheredView) -> Option<
    (GatheredView, int),
>
    decreases s.len() - i,
{
    match spec_string(s, i) {
        None => None,
        Some(kp) => {
            let j2 = spec_ws(s, kp.1);
            if !(0 <= j2 < s.len() && s[j2] == 58) {
                None
            } else {
                let j3 = spec_ws(s, j2 + 1);
                match spec_msg_value(s, j3, g, kp.0) {
                    None => None,
                    Some(p) => {
                        let j5 = spec_ws(s, p.1);
                        if 0 <= j5 < s.len() && s[j5] == 44 {
                            let j6 = spec_ws(s, j5 + 1);
                            if j6 > i && j6 <= s.len() {
                                spec_msg_members(s, j6, p.0)
                            } else {
                                None
                            }
                        } else if 0 <= j5 < s.len() && s[j5] == 125 {
                            Some((p.0, j5 + 1))
                        } else {
                            None
                        }
                    },
                }
            }
        },
    }
}

/// The whole frame gathered: one object, nothing but whitespace after it.
pub open spec fn spec_gather(s: Seq<u8>) -> Option<GatheredView> {
    let i0 = spec_ws(s, 0);
    if !(0 <= i0 < s.len() && s[i0] == 123) {
        None
    } else {
        let j = spec_ws(s, i0 + 1);
        let scanned = if 0 <= j < s.len() && s[j] == 125 {
            Some((spec_gathered_empty(), j + 1))
        } else {
            spec_msg_members(s, j, spec_gathered_empty())
        };
        match scanned {
            None => None,
            Some(p) => {
                if spec_ws(s, p.1) == s.len() {
                    Some(p.0)
                } else {
                    None
                }
            },
        }
    }
}

/// An inbound WebSocket frame, interpreted.
#[derive(Debug, Clone, PartialEq)]
pub enum IncomingMessage {
    /// The peer declares itself the browser host.
    BrowserRegister,
    /// The peer pushes a full status replacement.
    StatusSync { status: RemoteStatus },
    /// Anything else with a type: handled as a command.
    Command(RemoteCommand),
    /// Unreadable: logged and dropped, the session stays up.
    Malformed,
}

/// Mathematical model of an interpreted frame.
pub ghost enum IncomingView {
    BrowserRegister,
    StatusSync(StatusView),
    Command(CommandView),
    Malformed,
}

impl View for IncomingMessage {
    type V = IncomingView;

    open spec fn view(&self) -> IncomingView {
        match self {
            IncomingMessage::BrowserRegister => IncomingView::BrowserRegister,
            IncomingMessage::StatusSync { status } => IncomingView::StatusSync(status@),
            IncomingMessage::Command(c) => IncomingView::Command(c@),
            IncomingMessage::Malformed => IncomingView::Malformed,
        }
    }
}

/// The command the gathering carries, where it does: its timestamp member
/// must be absent (the wire default `0` steps in) or a whole number.
pub open spec fn spec_gathered_command(g: GatheredView) -> Option<CommandView> {
    match g.ty {
        None => None,
        Some(ty) => match g.ts {
            Some(None) => None,
            _ => Some(
                CommandView {
                    command_type: ty,
                    value: g.value,
                    timestamp: match g.ts {
                        Some(Some(t)) => t,
                        _ => 0,
                    },
                },
            ),
        },
    }
}

/// What an inbound WebSocket frame means.  A `browser-register` or a
/// `status-sync` with a full status is taken as such; any other readable
/// frame with a `type` is a command; the rest is malformed.
pub open spec fn spec_message(s: Seq<u8>) -> IncomingView {
    match spec_gather(s) {
        None => IncomingView::Malformed,
        Some(g) => match g.ty {
            None => IncomingView::Malformed,
            Some(ty) => {
                if ty == lit_bytes("browser-register"@) {
                    IncomingView::BrowserRegister
                } else if ty == lit_bytes("status-sync"@) && (g.status matches Some(Some(_))) {
                    IncomingView::StatusSync(g.status->Some_0->Some_0)
                } else {
                    match spec_gathered_command(g) {
                        Some(c) => IncomingView::Command(c),
                        None => IncomingView::Malformed,
                    }
                }
            },
        },
    }
}

/// What a `POST /command` body means: a command, or nothing.
pub open spec fn spec_http_command(s: Seq<u8>) -> Option<CommandView> {
    match spec_gather(s) {
        None => None,
        Some(g) => spec_gathered_command(g),
    }
}

/// One top-level member's value applied to what has been gathered.
fn msg_value(s: &[u8], i: usize, g: Gathered, key: &[u8]) -> (r: Option<(Gathered, usize)>)
    requires
        i <= s@.len(),
    ensures
        match spec_msg_value(s@, i as int, g@, key@) {
            Some(p) => r matches Some(q) && q.0@ == p.0 && q.1 as int == p.1 && i < p.1
                <= s@.len(),
            None => r is None,
        },
{
    proof {
        reveal_strlit("type");
        reveal_strlit("value");
        reveal_strlit("timestamp");
        reveal_strlit("status");
    }
    if eq_lit(key, "type") {
        if g.ty.is_some() {
            None
        } else {
            match parse_value(s, i) {
                Some((JsonValue::Str(q), j)) => Some((Gathered { ty: Some(q), ..g }, j)),
                _ => None,
            }
        }
    } else if eq_lit(key, "value") {
        if g.value.is_some() {
            None
        } else {
            match parse_value(s, i) {
                Some((v, j)) => Some((Gathered { value: Some(v), ..g }, j)),
                None => None,
            }
        }
    } else if eq_lit(key, "timestamp") {
        if g.ts.is_some() {
            None
        } else {
            match parse_value(s, i) {
                Some((JsonValue::Num(m), j)) => Some((Gathered { ts: Some(whole(m)), ..g }, j)),
                Some((_, j)) => Some((Gathered { ts: Some(None), ..g }, j)),
                None => None,
            }
        }
    } else if eq_lit(key, "status") {
        if g.status.is_some() {
            None
        } else {
            match parse_status_obj(s, i) {
                Some((st, j)) => Some((Gathered { status: Some(Some(st)), ..g }, j)),
                None => match parse_value(s, i) {
                    Some((_, j)) => Some((Gathered { status: Some(None), ..g }, j)),
                    None => None,
                },
            }
        }
    } else {
        match parse_value(s, i) {
            Some((_, j)) => Some((g, j)),
            None => None,
        }
    }
}

/// Read the top-level members of a frame, starting at the first key.
fn msg_members(s: &[u8], i: usize, g: Gathered) -> (r: Option<(Gathered, usize)>)
    requires
        i <= s@.len(),
    ensures
        match spec_msg_members(s@, i as int, g@) {
            Some(p) => r matches Some(q) && q.0@ == p.0 && q.1 as int == p.1 && i < p.1
                <= s@.len(),
            None => r is None,
        },
    decreases s@.len() - i,
{
    let kp = match parse_string(s, i) {
        Some(kp) => kp,
        None => {
            return None;
        },
    };
    let j2 = skip_ws(s, kp.1);
    if !(j2 < s.len() && s[j2] == 58) {
        return None;
    }
    let j3 = skip_ws(s, j2 + 1);
    let p = match msg_value(s, j3, g, kp.0.as_slice()) {
        Some(p) => p,
        None => {
            return None;
        },
    };
    let j5 = skip_ws(s, p.1);
    if j5 < s.len() && s[j5] == 44 {
        let j6 = skip_ws(s, j5 + 1);
        if j6 > i {
            msg_members(s, j6, p.0)
        } else {
            None
        }
    } else if j5 < s.len() && s[j5] == 125 {
        Some((p.0, j5 + 1))
    } else {
        None
    }
}

/// Gather the whole frame.
fn gather(s: &[u8]) -> (r: Option<Gathered>)
    ensures
        match spec_gather(s@) {
            Some(gv) => r matches Some(g) && g@ == gv,
            None => r is None,
        },
{
    let i0 = skip_ws(s, 0);
    if !(i0 < s.len() && s[i0] == 123) {
        return None;
    }
    let j = skip_ws(s, i0 + 1);
    let g0 = Gathered { ty: None, value: None, ts: None, status: None };
    let scanned: Option<(Gathered, usize)> = if j < s.len() && s[j] == 125 {
        Some((g0, j + 1))
    } else {
        msg_members(s, j, g0)
    };
    match scanned {
        None => None,
        Some((g, end)) => {
            if skip_ws(s, end) == s.len() {
                Some(g)
            } else {
                None
            }
        },
    }
}

/// The command a gathering carries, where it does.
fn gathered_command(g: Gathered) -> (r: Option<RemoteCommand>)
    ensures
        match spec_gathered_command(g@) {
            Some(cv) => r matches Some(c) && c@ == cv,
            None => r is None,
        },
{
    match g.ty {
        None => None,
        Some(ty) => match g.ts {
            Some(None) => None,
            Some(Some(t)) => Some(RemoteCommand { command_type: ty, value: g.value, timestamp: t }),
            None => Some(RemoteCommand { command_type: ty, value: g.value, timestamp: 0 }),
        },
    }
}

/// Interpret one inbound WebSocket text frame.
pub fn parse_message(s: &[u8]) -> (r: IncomingMessage)
    ensures
        r@ == spec_message(s@),
{
    proof {
        reveal_strlit("browser-register");
        reveal_strlit("status-sync");
    }
    let g = match gather(s) {
        Some(g) => g,
        None => {
            return IncomingMessage::Malformed;
        },
    };
    let ty = match &g.ty {
        Some(ty) => ty,
        None => {
            return IncomingMessage::Malformed;
        },
    };
    if eq_lit(ty.as_slice(), "browser-register") {
        IncomingMessage::BrowserRegister
    } else if eq_lit(ty.as_slice(), "status-sync") {
        match g.status {
            Some(Some(st)) => IncomingMessage::StatusSync { status: st },
            _ => {
                match gathered_command(Gathered { status: None, ..g }) {
                    Some(c) => IncomingMessage::Command(c),
                    None => IncomingMessage::Malformed,
                }
            },
        }
    } else {
        match gathered_command(g) {
            Some(c) => IncomingMessage::Command(c),
            None => IncomingMessage::Malformed,
        }
    }
}

/// Interpret a `POST /command` body.
pub fn parse_http_command(s: &[u8]) -> (r: Option<RemoteCommand>)
    ensures
        match spec_http_command(s@) {
            Some(cv) => r matches Some(c) && c@ == cv,
            None => r is None,
        },
{
    match gather(s) {
        Some(g) => gathered_command(g),
        None => None,
    }
}

} // verus!
