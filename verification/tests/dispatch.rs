use remote_session::command::{dispatch, event_name, AppEvent, RemoteCommand};
use remote_session::json::JsonValue;

fn cmd(name: &str, value: Option<JsonValue>) -> RemoteCommand {
    RemoteCommand { command_type: name.as_bytes().to_vec(), value, timestamp: 0 }
}

#[test]
fn plain_commands_map_one_to_one() {
    assert_eq!(dispatch(&cmd("play", None)), Some(AppEvent::Play));
    assert_eq!(dispatch(&cmd("pause", None)), Some(AppEvent::Pause));
    assert_eq!(dispatch(&cmd("stop", None)), Some(AppEvent::Stop));
    assert_eq!(dispatch(&cmd("next_segment", None)), Some(AppEvent::NextSegment));
    assert_eq!(dispatch(&cmd("prev_segment", None)), Some(AppEvent::PrevSegment));
    assert_eq!(dispatch(&cmd("toggle_mirror", None)), Some(AppEvent::ToggleMirror));
    assert_eq!(dispatch(&cmd("reset_position", None)), Some(AppEvent::ResetPosition));
    assert_eq!(dispatch(&cmd("go_live", None)), Some(AppEvent::GoLive));
    assert_eq!(dispatch(&cmd("exit_live", None)), Some(AppEvent::ExitLive));
}

#[test]
fn set_speed_clamps_high() {
    // 5.0 is forced down to 2.0
    let r = dispatch(&cmd("set_speed", Some(JsonValue::Num(5000))));
    assert_eq!(r, Some(AppEvent::SetSpeed(2000)));
}

#[test]
fn set_speed_clamps_low() {
    // 0.1 is forced up to 0.5
    let r = dispatch(&cmd("set_speed", Some(JsonValue::Num(100))));
    assert_eq!(r, Some(AppEvent::SetSpeed(500)));
}

#[test]
fn set_speed_keeps_value_in_range() {
    // 1.2 stays 1.2
    let r = dispatch(&cmd("set_speed", Some(JsonValue::Num(1200))));
    assert_eq!(r, Some(AppEvent::SetSpeed(1200)));
}

#[test]
fn set_speed_without_value_is_dropped() {
    assert_eq!(dispatch(&cmd("set_speed", None)), None);
}

#[test]
fn set_speed_with_text_value_is_dropped() {
    let v = JsonValue::Str(b"fast".to_vec());
    assert_eq!(dispatch(&cmd("set_speed", Some(v))), None);
}

#[test]
fn seek_passes_position_through() {
    let r = dispatch(&cmd("seek", Some(JsonValue::Num(12500))));
    assert_eq!(r, Some(AppEvent::Seek(12500)));
}

#[test]
fn seek_without_number_is_dropped() {
    assert_eq!(dispatch(&cmd("seek", None)), None);
    assert_eq!(dispatch(&cmd("seek", Some(JsonValue::Bool(true)))), None);
    assert_eq!(dispatch(&cmd("seek", Some(JsonValue::Str(b"1.2".to_vec())))), None);
}

#[test]
fn unknown_command_is_dropped() {
    assert_eq!(dispatch(&cmd("frobnicate", None)), None);
    assert_eq!(dispatch(&cmd("", None)), None);
    assert_eq!(dispatch(&cmd("PLAY", None)), None);
}

#[test]
fn event_names_match_host_vocabulary() {
    assert_eq!(event_name(&AppEvent::Play), "remote-play");
    assert_eq!(event_name(&AppEvent::Pause), "remote-pause");
    assert_eq!(event_name(&AppEvent::Stop), "remote-stop");
    assert_eq!(event_name(&AppEvent::NextSegment), "remote-next-segment");
    assert_eq!(event_name(&AppEvent::PrevSegment), "remote-prev-segment");
    assert_eq!(event_name(&AppEvent::SetSpeed(1000)), "remote-set-speed");
    assert_eq!(event_name(&AppEvent::ToggleMirror), "remote-toggle-mirror");
    assert_eq!(event_name(&AppEvent::ResetPosition), "remote-reset-position");
    assert_eq!(event_name(&AppEvent::GoLive), "remote-go-live");
    assert_eq!(event_name(&AppEvent::ExitLive), "remote-exit-live");
    assert_eq!(event_name(&AppEvent::Seek(0)), "remote-seek");
}
